use vstd::prelude::*;

use crate::domain::{Article, Project};
use crate::error::{AppError, AppErrorView};
use crate::text::{
    lemma_seq_lt_irreflexive, lemma_seq_lt_total, lemma_seq_lt_transitive, seq_lt, text_lt,
};

verus! {

/// What a listing needs of an item: its place in the order, whether it is
/// featured, and its card.
pub trait Listed: Sized {
    /// The item's sort order.
    spec fn order_of(&self) -> i64;

    /// The item's slug.
    spec fn slug_of(&self) -> Seq<char>;

    /// Whether the item is featured.
    spec fn featured_of(&self) -> bool;

    /// Whether `self` is the card of `full`.
    spec fn is_card_of(&self, full: &Self) -> bool;

    /// The item's sort order.
    fn sort_order(&self) -> (r: i64)
        ensures
            r == self.order_of(),
    ;

    /// The item's slug.
    fn slug_text(&self) -> (r: &str)
        ensures
            r@ == self.slug_of(),
    ;

    /// Whether the item is featured.
    fn is_featured(&self) -> (r: bool)
        ensures
            r == self.featured_of(),
    ;

    /// The item's card.
    fn card(&self) -> (r: Self)
        ensures
            r.is_card_of(self),
            r.order_of() == self.order_of(),
            r.slug_of() == self.slug_of(),
            r.featured_of() == self.featured_of(),
    ;
}

impl Listed for Project {
    open spec fn order_of(&self) -> i64 {
        self.sort_order
    }

    open spec fn slug_of(&self) -> Seq<char> {
        self.slug@
    }

    open spec fn featured_of(&self) -> bool {
        self.featured
    }

    open spec fn is_card_of(&self, full: &Self) -> bool {
        self@ == full@.card()
    }

    fn sort_order(&self) -> (r: i64) {
        self.sort_order
    }

    fn slug_text(&self) -> (r: &str) {
        self.slug.as_str()
    }

    fn is_featured(&self) -> (r: bool) {
        self.featured
    }

    fn card(&self) -> (r: Self) {
        self.as_card()
    }
}

impl Listed for Article {
    open spec fn order_of(&self) -> i64 {
        self.sort_order
    }

    open spec fn slug_of(&self) -> Seq<char> {
        self.slug@
    }

    open spec fn featured_of(&self) -> bool {
        self.featured
    }

    open spec fn is_card_of(&self, full: &Self) -> bool {
        self@ == full@.card()
    }

    fn sort_order(&self) -> (r: i64) {
        self.sort_order
    }

    fn slug_text(&self) -> (r: &str) {
        self.slug.as_str()
    }

    fn is_featured(&self) -> (r: bool) {
        self.featured
    }

    fn card(&self) -> (r: Self) {
        self.as_card()
    }
}

/// `a` comes before `b`: by sort order, then by slug.
pub open spec fn goes_before<T: Listed>(a: T, b: T) -> bool {
    ||| a.order_of() < b.order_of()
    ||| a.order_of() == b.order_of() && seq_lt(a.slug_of(), b.slug_of())
}

/// Where `x` goes into `r`: before the first item that `x` goes before, so
/// after every item with the same key (a stable insertion).
pub open spec fn insert_pos<T: Listed>(r: Seq<T>, x: T) -> nat
    decreases r.len(),
{
    if r.len() == 0 {
        0
    } else if goes_before(x, r[0]) {
        0
    } else {
        1 + insert_pos(r.drop_first(), x)
    }
}

/// The items of `s` in listing order: by sort order, then by slug, items
/// with the same key keeping their order in `s` (a stable sort).
pub open spec fn in_listing_order<T: Listed>(s: Seq<T>) -> Seq<T>
    decreases s.len(),
{
    if s.len() == 0 {
        Seq::empty()
    } else {
        let r = in_listing_order(s.drop_last());
        r.insert(insert_pos(r, s.last()) as int, s.last())
    }
}

/// The items that a listing with the `featured` filter keeps: the featured
/// ones when it asks for `Some(true)`, else all.
pub open spec fn selected<T: Listed>(s: Seq<T>, featured: Option<bool>) -> Seq<T>
    decreases s.len(),
{
    if s.len() == 0 {
        Seq::empty()
    } else {
        let r = selected(s.drop_last(), featured);
        if featured == Some(true) && !s.last().featured_of() {
            r
        } else {
            r.push(s.last())
        }
    }
}

/// The items of a listing before they are turned into cards.
pub open spec fn listing<T: Listed>(s: Seq<T>, featured: Option<bool>) -> Seq<T> {
    in_listing_order(selected(s, featured))
}

/// Whether `a` comes before `b` in a listing.
pub fn goes_before_exec<T: Listed>(a: &T, b: &T) -> (r: bool)
    ensures
        r == goes_before(*a, *b),
{
    let oa = a.sort_order();
    let ob = b.sort_order();
    oa < ob || (oa == ob && text_lt(a.slug_text(), b.slug_text()))
}

proof fn lemma_insert_pos_step<T: Listed>(r: Seq<T>, x: T, p: int)
    requires
        0 <= p < r.len(),
        !goes_before(x, r[p]),
    ensures
        insert_pos(r.skip(p), x) == 1 + insert_pos(r.skip(p + 1), x),
{
    assert(r.skip(p).drop_first() =~= r.skip(p + 1));
    assert(r.skip(p)[0] == r[p]);
}

/// Inserts `x` into `sorted` at its place in listing order.
fn insert_in_order<T: Listed>(sorted: &mut Vec<T>, x: T)
    ensures
        final(sorted)@ == old(sorted)@.insert(insert_pos(old(sorted)@, x) as int, x),
{
    let mut p: usize = 0;
    assert(sorted@.skip(0) =~= sorted@);
    while p < sorted.len() && !goes_before_exec(&x, &sorted[p])
        invariant
            sorted@ == old(sorted)@,
            p <= sorted@.len(),
            insert_pos(sorted@, x) == p + insert_pos(sorted@.skip(p as int), x),
        decreases sorted@.len() - p,
    {
        proof {
            lemma_insert_pos_step(sorted@, x, p as int);
        }
        p = p + 1;
    }
    proof {
        if p < sorted@.len() {
            assert(sorted@.skip(p as int)[0] == sorted@[p as int]);
        } else {
            assert(sorted@.skip(p as int).len() == 0);
        }
    }
    sorted.insert(p, x);
}

/// The items of `items` in listing order.
pub fn sort_for_listing<T: Listed>(items: Vec<T>) -> (r: Vec<T>)
    ensures
        r@ == in_listing_order(items@),
{
    let mut rest = items;
    let mut sorted: Vec<T> = Vec::new();
    let n = rest.len();
    let mut k: usize = 0;
    assert(items@.take(0) =~= Seq::<T>::empty());
    assert(items@.skip(0) =~= items@);
    while k < n
        invariant
            n == items@.len(),
            k <= n,
            rest@ == items@.skip(k as int),
            sorted@ == in_listing_order(items@.take(k as int)),
        decreases n - k,
    {
        let x = rest.remove(0);
        assert(items@.take(k + 1).drop_last() =~= items@.take(k as int));
        assert(items@.take(k + 1).last() == x);
        insert_in_order(&mut sorted, x);
        assert(rest@ =~= items@.skip(k + 1));
        k = k + 1;
    }
    assert(items@.take(n as int) =~= items@);
    sorted
}

/// Whether a listing with the `featured` filter keeps featured items only.
pub fn featured_only(featured: Option<bool>) -> (r: bool)
    ensures
        r == (featured == Some(true)),
{
    match featured {
        Some(b) => b,
        None => false,
    }
}

/// The items of `items` that a listing with the `featured` filter keeps, in order.
pub fn select_for_listing<T: Listed>(items: Vec<T>, featured: Option<bool>) -> (r: Vec<T>)
    ensures
        r@ == selected(items@, featured),
{
    let only_featured = featured_only(featured);
    let mut rest = items;
    let mut kept: Vec<T> = Vec::new();
    let n = rest.len();
    let mut k: usize = 0;
    assert(items@.take(0) =~= Seq::<T>::empty());
    assert(items@.skip(0) =~= items@);
    while k < n
        invariant
            n == items@.len(),
            k <= n,
            only_featured == (featured == Some(true)),
            rest@ == items@.skip(k as int),
            kept@ == selected(items@.take(k as int), featured),
        decreases n - k,
    {
        let x = rest.remove(0);
        assert(items@.take(k + 1).drop_last() =~= items@.take(k as int));
        assert(items@.take(k + 1).last() == x);
        if !only_featured || x.is_featured() {
            kept.push(x);
        }
        assert(rest@ =~= items@.skip(k + 1));
        k = k + 1;
    }
    assert(items@.take(n as int) =~= items@);
    kept
}

/// The cards that a listing shows: the items that the `featured` filter
/// keeps, in listing order, each turned into its card.
pub fn list_cards<T: Listed>(items: Vec<T>, featured: Option<bool>) -> (r: Vec<T>)
    ensures
        r@.len() == listing(items@, featured).len(),
        forall|i: int|
            #![trigger r@[i]]
            0 <= i < r@.len() ==> r@[i].is_card_of(&listing(items@, featured)[i])
                && r@[i].order_of() == listing(items@, featured)[i].order_of()
                && r@[i].slug_of() == listing(items@, featured)[i].slug_of()
                && r@[i].featured_of() == listing(items@, featured)[i].featured_of(),
{
    let sorted = sort_for_listing(select_for_listing(items, featured));
    let mut cards: Vec<T> = Vec::new();
    let mut i: usize = 0;
    while i < sorted.len()
        invariant
            sorted@ == listing(items@, featured),
            i <= sorted@.len(),
            cards@.len() == i,
            forall|j: int|
                #![trigger cards@[j]]
                0 <= j < i ==> cards@[j].is_card_of(&sorted@[j])
                    && cards@[j].order_of() == sorted@[j].order_of()
                    && cards@[j].slug_of() == sorted@[j].slug_of()
                    && cards@[j].featured_of() == sorted@[j].featured_of(),
        decreases sorted@.len() - i,
    {
        let c = sorted[i].card();
        cards.push(c);
        assert(cards@[i as int] == c);
        i = i + 1;
    }
    cards
}

/// The first failure among `s`, if any.
pub open spec fn first_failure<T>(s: Seq<Result<T, AppError>>) -> Option<AppErrorView>
    decreases s.len(),
{
    if s.len() == 0 {
        None
    } else if s[0] is Err {
        Some(s[0]->Err_0@)
    } else {
        first_failure(s.drop_first())
    }
}

/// The values of `s`, all of which succeeded.
pub open spec fn successes<T>(s: Seq<Result<T, AppError>>) -> Seq<T> {
    s.map_values(|x: Result<T, AppError>| x->Ok_0)
}

proof fn lemma_first_failure_step<T>(s: Seq<Result<T, AppError>>, k: int)
    requires
        0 <= k < s.len(),
        forall|j: int| 0 <= j < k ==> #[trigger] s[j] is Ok,
    ensures
        first_failure(s) == first_failure(s.skip(k)),
    decreases k,
{
    if k > 0 {
        assert(s.skip(1) =~= s.drop_first());
        lemma_first_failure_step(s.drop_first(), k - 1);
        assert(s.drop_first().skip(k - 1) =~= s.skip(k));
    } else {
        assert(s.skip(0) =~= s);
    }
}

/// The cards of a listing whose items were read one by one: the first
/// failed read gives the error, else the cards of the items read.
pub fn list_read_cards<T: Listed>(read: Vec<Result<T, AppError>>, featured: Option<bool>) -> (r:
    Result<Vec<T>, AppError>)
    ensures
        match first_failure(read@) {
            Some(e0) => r matches Err(e) && e@ == e0,
            None => r matches Ok(cards) && cards@.len() == listing(successes(read@), featured).len()
                && forall|i: int|
                #![trigger cards@[i]]
                0 <= i < cards@.len() ==> cards@[i].is_card_of(
                    &listing(successes(read@), featured)[i],
                ),
        },
{
    let n = read.len();
    let mut rest = read;
    let mut items: Vec<T> = Vec::new();
    let mut k: usize = 0;
    assert(read@.skip(0) =~= read@);
    while k < n
        invariant
            n == read@.len(),
            k <= n,
            rest@ == read@.skip(k as int),
            items@ == successes(read@.take(k as int)),
            forall|j: int| 0 <= j < k ==> #[trigger] read@[j] is Ok,
        decreases n - k,
    {
        let x = rest.remove(0);
        assert(read@[k as int] == x);
        match x {
            Ok(v) => {
                items.push(v);
                assert(items@ =~= successes(read@.take(k + 1)));
            },
            Err(e) => {
                proof {
                    lemma_first_failure_step(read@, k as int);
                }
                return Err(e);
            },
        }
        assert(rest@ =~= read@.skip(k + 1));
        k = k + 1;
    }
    proof {
        assert(read@.take(n as int) =~= read@);
        if n > 0 {
            lemma_first_failure_step(read@, n - 1);
            let t = read@.skip(n - 1);
            assert(t[0] == read@[n - 1]);
            assert(t[0] is Ok);
            assert(t.drop_first().len() == 0);
            assert(first_failure(t.drop_first()) is None);
            assert(first_failure(t) == first_failure(t.drop_first()));
        }
    }
    Ok(list_cards(items, featured))
}

/// Whether no item of `s` goes before an item that precedes it.
pub open spec fn in_order<T: Listed>(s: Seq<T>) -> bool {
    forall|i: int, j: int| 0 <= i < j < s.len() ==> !goes_before(#[trigger] s[j], #[trigger] s[i])
}

proof fn lemma_goes_before_irreflexive<T: Listed>(a: T)
    ensures
        !goes_before(a, a),
{
    lemma_seq_lt_irreflexive(a.slug_of());
}

proof fn lemma_goes_before_transitive<T: Listed>(a: T, b: T, c: T)
    requires
        goes_before(a, b),
        goes_before(b, c),
    ensures
        goes_before(a, c),
{
    if a.order_of() == b.order_of() && b.order_of() == c.order_of() {
        lemma_seq_lt_transitive(a.slug_of(), b.slug_of(), c.slug_of());
    }
}

proof fn lemma_insert_pos_bounds<T: Listed>(r: Seq<T>, x: T)
    ensures
        insert_pos(r, x) <= r.len(),
        forall|k: int| 0 <= k < insert_pos(r, x) ==> !goes_before(x, #[trigger] r[k]),
        insert_pos(r, x) < r.len() ==> goes_before(x, r[insert_pos(r, x) as int]),
    decreases r.len(),
{
    if r.len() > 0 && !goes_before(x, r[0]) {
        lemma_insert_pos_bounds(r.drop_first(), x);
        assert forall|k: int| 0 <= k < insert_pos(r, x) implies !goes_before(x, #[trigger] r[k]) by {
            if k > 0 {
                assert(r[k] == r.drop_first()[k - 1]);
            }
        }
        if insert_pos(r, x) < r.len() {
            assert(r[insert_pos(r, x) as int] == r.drop_first()[insert_pos(r.drop_first(), x) as int]);
        }
    }
}

proof fn lemma_insert_keeps_order<T: Listed>(r: Seq<T>, x: T)
    requires
        in_order(r),
    ensures
        in_order(r.insert(insert_pos(r, x) as int, x)),
{
    lemma_insert_pos_bounds(r, x);
    let p = insert_pos(r, x) as int;
    let t = r.insert(p, x);
    assert forall|i: int, j: int| 0 <= i < j < t.len() implies !goes_before(
        #[trigger] t[j],
        #[trigger] t[i],
    ) by {
        if j < p {
            assert(t[i] == r[i] && t[j] == r[j]);
        } else if j == p {
            assert(t[i] == r[i]);
        } else if i < p {
            assert(t[i] == r[i] && t[j] == r[j - 1]);
        } else if i == p {
            assert(t[j] == r[j - 1]);
            if goes_before(r[j - 1], x) {
                lemma_goes_before_transitive(r[j - 1], x, r[p]);
                if j - 1 == p {
                    lemma_goes_before_irreflexive(r[p]);
                }
            }
        } else {
            assert(t[i] == r[i - 1] && t[j] == r[j - 1]);
        }
    }
}

/// The listing order sorts: no item of `in_listing_order(s)` goes before an
/// item that precedes it (by sort order, then slug).
pub proof fn lemma_listing_order_sorted<T: Listed>(s: Seq<T>)
    ensures
        in_order(in_listing_order(s)),
    decreases s.len(),
{
    if s.len() > 0 {
        lemma_listing_order_sorted(s.drop_last());
        lemma_insert_keeps_order(in_listing_order(s.drop_last()), s.last());
    }
}

/// The listing order only reorders: it holds the same items, as many times each.
pub proof fn lemma_listing_order_permutes<T: Listed>(s: Seq<T>)
    ensures
        in_listing_order(s).to_multiset() == s.to_multiset(),
    decreases s.len(),
{
    broadcast use vstd::seq_lib::to_multiset_insert, vstd::seq_lib::to_multiset_build;

    if s.len() > 0 {
        lemma_listing_order_permutes(s.drop_last());
        let r = in_listing_order(s.drop_last());
        lemma_insert_pos_bounds(r, s.last());
        assert(s =~= s.drop_last().push(s.last()));
    } else {
        assert(in_listing_order(s) =~= s);
    }
}

proof fn lemma_selected_featured<T: Listed>(s: Seq<T>)
    ensures
        forall|i: int|
            0 <= i < selected(s, Some(true)).len() ==> #[trigger] selected(s, Some(true))[i].featured_of(),
    decreases s.len(),
{
    if s.len() > 0 {
        lemma_selected_featured(s.drop_last());
        let r = selected(s.drop_last(), Some(true));
        assert forall|i: int|
            0 <= i < selected(s, Some(true)).len() implies #[trigger] selected(
            s,
            Some(true),
        )[i].featured_of() by {
            if i < r.len() {
                assert(selected(s, Some(true))[i] == r[i]);
            }
        }
    }
}

/// A listing that asks for featured items holds featured items only.
pub proof fn lemma_featured_listing_only_featured<T: Listed>(s: Seq<T>)
    ensures
        forall|i: int|
            0 <= i < listing(s, Some(true)).len() ==> #[trigger] listing(s, Some(true))[i].featured_of(),
{
    let f = selected(s, Some(true));
    lemma_selected_featured(s);
    lemma_listing_order_permutes(f);
    assert forall|i: int| 0 <= i < listing(s, Some(true)).len() implies #[trigger] listing(
        s,
        Some(true),
    )[i].featured_of() by {
        let x = listing(s, Some(true))[i];
        assert(in_listing_order(f).to_multiset().count(x) > 0) by {
            broadcast use vstd::seq_lib::to_multiset_contains;
            assert(in_listing_order(f).contains(x));
        }
        assert(f.contains(x)) by {
            broadcast use vstd::seq_lib::to_multiset_contains;
        }
    }
}

proof fn lemma_selected_contains<T: Listed>(s: Seq<T>, featured: Option<bool>, x: T)
    ensures
        selected(s, featured).contains(x) <==> (s.contains(x) && (featured == Some(true)
            ==> x.featured_of())),
    decreases s.len(),
{
    if s.len() > 0 {
        lemma_selected_contains(s.drop_last(), featured, x);
        let r = selected(s.drop_last(), featured);
        assert(s =~= s.drop_last().push(s.last()));
        if r.contains(x) {
            let i = choose|i: int| 0 <= i < r.len() && r[i] == x;
            assert(r.push(s.last())[i] == x);
        }
        if s.drop_last().contains(x) {
            let i = choose|i: int| 0 <= i < s.drop_last().len() && s.drop_last()[i] == x;
            assert(s[i] == x);
        }
        if s.contains(x) && x != s.last() {
            let i = choose|i: int| 0 <= i < s.len() && s[i] == x;
            assert(s.drop_last()[i] == x);
        }
        if selected(s, featured).contains(x) && x != s.last() {
            let i = choose|i: int| 0 <= i < selected(s, featured).len() && selected(s, featured)[i] == x;
            assert(r[i] == x);
        }
        let t = r.push(s.last());
        assert(t[t.len() - 1] == s.last());
        assert(s[s.len() - 1] == s.last());
    }
}

/// A listing holds exactly the items that its filter keeps: an item is
/// listed if and only if it is one of the items and, when featured items
/// are asked for, it is featured.
pub proof fn lemma_listing_holds_selected<T: Listed>(s: Seq<T>, featured: Option<bool>, x: T)
    ensures
        listing(s, featured).contains(x) <==> (s.contains(x) && (featured == Some(true)
            ==> x.featured_of())),
{
    broadcast use vstd::seq_lib::to_multiset_contains;

    let f = selected(s, featured);
    lemma_listing_order_permutes(f);
    lemma_selected_contains(s, featured, x);
    assert(listing(s, featured).contains(x) <==> listing(s, featured).to_multiset().count(x) > 0);
    assert(f.contains(x) <==> f.to_multiset().count(x) > 0);
}

/// A listing that does not ask for featured items leaves none out.
pub proof fn lemma_unfiltered_listing_keeps_all<T: Listed>(s: Seq<T>, featured: Option<bool>)
    requires
        featured != Some(true),
    ensures
        selected(s, featured) == s,
    decreases s.len(),
{
    if s.len() > 0 {
        lemma_unfiltered_listing_keeps_all(s.drop_last(), featured);
        assert(s =~= s.drop_last().push(s.last()));
    } else {
        assert(selected(s, featured) =~= s);
    }
}

proof fn lemma_selected_concat<T: Listed>(a: Seq<T>, b: Seq<T>, featured: Option<bool>)
    ensures
        selected(a + b, featured) == selected(a, featured) + selected(b, featured),
    decreases b.len(),
{
    if b.len() == 0 {
        assert(a + b =~= a);
        assert(selected(b, featured) =~= Seq::<T>::empty());
        assert(selected(a, featured) + selected(b, featured) =~= selected(a, featured));
    } else {
        lemma_selected_concat(a, b.drop_last(), featured);
        assert((a + b).drop_last() =~= a + b.drop_last());
        assert((a + b).last() == b.last());
        let sa = selected(a, featured);
        let sb = selected(b.drop_last(), featured);
        assert((sa + sb).push(b.last()) =~= sa + sb.push(b.last()));
    }
}

proof fn lemma_selected_elements<T: Listed>(s: Seq<T>, featured: Option<bool>, i: int)
    requires
        0 <= i < selected(s, featured).len(),
    ensures
        s.contains(selected(s, featured)[i]),
{
    lemma_selected_contains(s, featured, selected(s, featured)[i]);
    assert(selected(s, featured).contains(selected(s, featured)[i]));
}

proof fn lemma_insert_pos_split<T: Listed>(a: Seq<T>, b: Seq<T>, x: T)
    requires
        forall|i: int| 0 <= i < a.len() ==> !goes_before(x, #[trigger] a[i]),
        b.len() > 0 ==> goes_before(x, b[0]),
    ensures
        insert_pos(a + b, x) == a.len(),
    decreases a.len(),
{
    if a.len() == 0 {
        assert(a + b =~= b);
    } else {
        assert((a + b)[0] == a[0]);
        assert((a + b).drop_first() =~= a.drop_first() + b);
        assert forall|i: int| 0 <= i < a.drop_first().len() implies !goes_before(
            x,
            #[trigger] a.drop_first()[i],
        ) by {
            assert(a.drop_first()[i] == a[i + 1]);
        }
        lemma_insert_pos_split(a.drop_first(), b, x);
    }
}

proof fn lemma_goes_before_total<T: Listed>(a: T, b: T)
    requires
        !goes_before(a, b),
    ensures
        goes_before(b, a) || (a.order_of() == b.order_of() && a.slug_of() == b.slug_of()),
{
    if a.order_of() == b.order_of() && a.slug_of() != b.slug_of() {
        lemma_seq_lt_total(a.slug_of(), b.slug_of());
    }
}

proof fn lemma_after_insert_pos<T: Listed>(r: Seq<T>, x: T)
    requires
        in_order(r),
    ensures
        forall|i: int| insert_pos(r, x) <= i < r.len() ==> goes_before(x, #[trigger] r[i]),
{
    lemma_insert_pos_bounds(r, x);
    let p = insert_pos(r, x) as int;
    assert forall|i: int| p <= i < r.len() implies goes_before(x, #[trigger] r[i]) by {
        if i > p {
            assert(!goes_before(r[i], r[p]));
            lemma_goes_before_total(r[i], r[p]);
            if goes_before(r[p], r[i]) {
                lemma_goes_before_transitive(x, r[p], r[i]);
            }
        }
    }
}

proof fn lemma_insert_pos_in_featured<T: Listed>(r: Seq<T>, x: T)
    requires
        in_order(r),
    ensures
        insert_pos(selected(r, Some(true)), x) == selected(
            r.take(insert_pos(r, x) as int),
            Some(true),
        ).len(),
{
    lemma_insert_pos_bounds(r, x);
    lemma_after_insert_pos(r, x);
    let p = insert_pos(r, x) as int;
    let a = r.take(p);
    let b = r.skip(p);
    assert(r =~= a + b);
    lemma_selected_concat(a, b, Some(true));
    let fa = selected(a, Some(true));
    let fb = selected(b, Some(true));
    assert forall|i: int| 0 <= i < fa.len() implies !goes_before(x, #[trigger] fa[i]) by {
        lemma_selected_elements(a, Some(true), i);
        let k = choose|k: int| 0 <= k < a.len() && a[k] == fa[i];
        assert(a[k] == r[k]);
    }
    if fb.len() > 0 {
        lemma_selected_elements(b, Some(true), 0);
        let k = choose|k: int| 0 <= k < b.len() && b[k] == fb[0];
        assert(b[k] == r[p + k]);
    }
    lemma_insert_pos_split(fa, fb, x);
}

/// The featured listing is the full listing with the items that are not
/// featured left out: both hold the featured items, in the same order.
pub proof fn lemma_featured_listing_is_filtered_full_listing<T: Listed>(s: Seq<T>)
    ensures
        listing(s, Some(true)) == selected(listing(s, None), Some(true)),
    decreases s.len(),
{
    lemma_unfiltered_listing_keeps_all(s, None);
    if s.len() == 0 {
        assert(listing(s, Some(true)) =~= Seq::<T>::empty());
        assert(selected(listing(s, None), Some(true)) =~= Seq::<T>::empty());
    } else {
        let s1 = s.drop_last();
        let x = s.last();
        lemma_featured_listing_is_filtered_full_listing(s1);
        lemma_unfiltered_listing_keeps_all(s1, None);
        let r = in_listing_order(s1);
        let p = insert_pos(r, x) as int;
        lemma_listing_order_sorted(s1);
        lemma_insert_pos_bounds(r, x);
        let q = selected(r, Some(true));
        assert(in_listing_order(s) == r.insert(p, x));
        let a = r.take(p);
        let b = r.skip(p);
        assert(r =~= a + b);
        assert(r.insert(p, x) =~= a + (seq![x] + b));
        lemma_selected_concat(a, seq![x] + b, Some(true));
        lemma_selected_concat(seq![x], b, Some(true));
        lemma_selected_concat(a, b, Some(true));
        let fx = selected(seq![x], Some(true));
        assert(seq![x].drop_last() =~= Seq::<T>::empty());
        assert(seq![x].last() == x);
        assert(selected(seq![x].drop_last(), Some(true)) =~= Seq::<T>::empty());
        if x.featured_of() {
            assert(fx =~= seq![x]);
            let t = selected(s1, Some(true)).push(x);
            assert(selected(s, Some(true)) == t);
            assert(t.drop_last() =~= selected(s1, Some(true)));
            assert(in_listing_order(t) == q.insert(insert_pos(q, x) as int, x));
            lemma_insert_pos_in_featured(r, x);
            let fa = selected(a, Some(true));
            let fb = selected(b, Some(true));
            assert(q.insert(fa.len() as int, x) =~= fa + (seq![x] + fb));
        } else {
            assert(fx =~= Seq::<T>::empty());
            assert(selected(s, Some(true)) == selected(s1, Some(true)));
            assert(selected(a, Some(true)) + (fx + selected(b, Some(true))) =~= selected(
                a,
                Some(true),
            ) + selected(b, Some(true)));
        }
    }
}

/// A listed project card equals the project it stands for, except for the
/// detail: where `cards` are the cards of a project listing, each card has
/// the slug, title, category, summary, tags, flags and order of the project
/// at its place in the listing, and no sections, hero, related slugs or
/// repository.
pub proof fn lemma_listed_project_cards_keep_fields(
    items: Seq<Project>,
    featured: Option<bool>,
    cards: Seq<Project>,
)
    requires
        cards.len() == listing(items, featured).len(),
        forall|i: int|
            #![trigger cards[i]]
            0 <= i < cards.len() ==> cards[i].is_card_of(&listing(items, featured)[i]),
    ensures
        forall|i: int|
            #![trigger cards[i]]
            0 <= i < cards.len() ==> {
                let p = listing(items, featured)[i];
                &&& cards[i].slug@ == p.slug@
                &&& cards[i].title@ == p.title@
                &&& cards[i].category@ == p.category@
                &&& cards[i].summary@ == p.summary@
                &&& cards[i].tags.deep_view() == p.tags.deep_view()
                &&& cards[i].has_detail_page == p.has_detail_page
                &&& cards[i].featured == p.featured
                &&& cards[i].sort_order == p.sort_order
                &&& cards[i].sections@.len() == 0
                &&& cards[i].hero is None
                &&& cards[i].related_slugs@.len() == 0
                &&& cards[i].repo_url is None
            },
{
    assert forall|i: int| #![trigger cards[i]] 0 <= i < cards.len() implies ({
        let p = listing(items, featured)[i];
        &&& cards[i].slug@ == p.slug@
        &&& cards[i].title@ == p.title@
        &&& cards[i].category@ == p.category@
        &&& cards[i].summary@ == p.summary@
        &&& cards[i].tags.deep_view() == p.tags.deep_view()
        &&& cards[i].has_detail_page == p.has_detail_page
        &&& cards[i].featured == p.featured
        &&& cards[i].sort_order == p.sort_order
        &&& cards[i].sections@.len() == 0
        &&& cards[i].hero is None
        &&& cards[i].related_slugs@.len() == 0
        &&& cards[i].repo_url is None
    }) by {
        let c = cards[i];
        assert(c.is_card_of(&listing(items, featured)[i]));
        assert(c.sections.deep_view().len() == c.sections@.len());
        assert(c.related_slugs.deep_view().len() == c.related_slugs@.len());
    }
}

/// A listed article card equals the article it stands for, except for its
/// sections: where `cards` are the cards of an article listing, each card
/// has the slug, title, category, summary, status, featured flag, order,
/// publication date and reading time of the article at its place in the
/// listing, and no section.
pub proof fn lemma_listed_article_cards_keep_fields(
    items: Seq<Article>,
    featured: Option<bool>,
    cards: Seq<Article>,
)
    requires
        cards.len() == listing(items, featured).len(),
        forall|i: int|
            #![trigger cards[i]]
            0 <= i < cards.len() ==> cards[i].is_card_of(&listing(items, featured)[i]),
    ensures
        forall|i: int|
            #![trigger cards[i]]
            0 <= i < cards.len() ==> {
                let a = listing(items, featured)[i];
                &&& cards[i].slug@ == a.slug@
                &&& cards[i].title@ == a.title@
                &&& cards[i].category@ == a.category@
                &&& cards[i].summary@ == a.summary@
                &&& cards[i].status == a.status
                &&& cards[i].featured == a.featured
                &&& cards[i].sort_order == a.sort_order
                &&& cards[i].published_at.deep_view() == a.published_at.deep_view()
                &&& cards[i].reading_time_minutes == a.reading_time_minutes
                &&& cards[i].sections@.len() == 0
            },
{
    assert forall|i: int| #![trigger cards[i]] 0 <= i < cards.len() implies ({
        let a = listing(items, featured)[i];
        &&& cards[i].slug@ == a.slug@
        &&& cards[i].title@ == a.title@
        &&& cards[i].category@ == a.category@
        &&& cards[i].summary@ == a.summary@
        &&& cards[i].status == a.status
        &&& cards[i].featured == a.featured
        &&& cards[i].sort_order == a.sort_order
        &&& cards[i].published_at.deep_view() == a.published_at.deep_view()
        &&& cards[i].reading_time_minutes == a.reading_time_minutes
        &&& cards[i].sections@.len() == 0
    }) by {
        let c = cards[i];
        assert(c.is_card_of(&listing(items, featured)[i]));
        assert(c.sections.deep_view().len() == c.sections@.len());
    }
}

} // verus!
