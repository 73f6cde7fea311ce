//! The typed views over engine objects, and the values they hand out.

pub mod attr_value;
pub mod custom_block;
pub mod descriptor;
pub mod error;
pub mod handle;
pub mod import_binding;
pub mod parse_output;
pub mod script_block;
pub mod script_output;
pub mod source_location;
pub mod string_map;
pub mod style_block;
pub mod style_output;
pub mod template_block;
pub mod template_output;

pub use attr_value::{AttrValue, AttrValueView};
pub use custom_block::CustomBlock;
pub use descriptor::Descriptor;
pub use error::{Error, ErrorKind, Result};
pub use handle::Handle;
pub use import_binding::{ImportBinding, ImportBindingView};
pub use parse_output::ParseOutput;
pub use script_block::ScriptBlock;
pub use script_output::ScriptOutput;
pub use source_location::{Position, SourceLocation};
pub use string_map::StringMap;
pub use style_block::StyleBlock;
pub use style_output::StyleOutput;
pub use template_block::TemplateBlock;
pub use template_output::TemplateOutput;
