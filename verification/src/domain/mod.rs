pub mod article;
pub mod contact;
pub mod health;
pub mod newsletter;
pub mod project;

pub use article::{Article, ArticleListResponse, ArticleStatus};
pub use contact::{ContactRequest, ContactResponse};
pub use health::HealthResponse;
pub use newsletter::{NewsletterRequest, NewsletterResponse};
pub use project::{ContentSection, MediaPlaceholder, Project, ProjectListResponse};
