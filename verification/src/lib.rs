//! Registration of an application's bundled icon-resource path with a GUI
//! toolkit's process-wide default icon theme.
//!
//! The toolkit's icon theme is modelled as an ordered list of resource
//! search paths ([`icon_theme::IconTheme`]); the toolkit context, in which a
//! default theme may or may not be available, is modelled by
//! [`icon_theme::ToolkitContext`]. The registrar appends one fixed path,
//! [`registrar::icon_resource_path`], to the default theme's search paths.

pub mod icon_theme;
pub mod registrar;
