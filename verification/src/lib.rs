//! Supervision of an external proxy core: configuration drafts, the
//! enhancement chain that builds the runtime configuration, and the
//! decisions of the process supervisor.

pub mod chain;
pub mod draft;
pub mod help;
pub mod json;
pub mod output;
pub mod port;
pub mod proxy;
pub mod settings;
pub mod supervisor;
pub mod supervisor_laws;
pub mod text;
pub mod variant;
pub mod yaml;
pub mod yaml_text;
