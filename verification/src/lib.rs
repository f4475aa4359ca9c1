pub mod doc;
pub mod manifest;
pub mod model;

pub use manifest::add_dependency;
pub use manifest::add_top_module;
pub use manifest::get_repo_links;
pub use manifest::remove_dependency;
pub use manifest::remove_top_module;
pub use manifest::Dependency;
pub use manifest::Manifest;
pub use manifest::ManifestError;
