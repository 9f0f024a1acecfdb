//! A read-only parser for Windows Portable Executable (PE32 / PE32+) images.
//!
//! The parser works over a fully resident byte buffer: headers are decoded in
//! place, RVAs are translated to file offsets through the section table, and
//! the export, import, debug, load-configuration and COM-descriptor
//! directories are resolved into typed records.

pub mod clr_container;
pub mod com_descriptor;
pub mod constant;
pub mod cor20_header;
pub mod data_directory;
pub mod debug_container;
pub mod debug_directory;
pub mod dos_header;
pub mod error;
pub mod executable;
pub mod export_container;
pub mod export_directory;
pub mod file_header;
pub mod guid;
pub mod import_container;
pub mod load_config_container;
pub mod load_config_directory;
pub mod optional_header;
pub mod reader;
pub mod section_header;

pub use clr_container::ClrContainer;
pub use com_descriptor::ComDescriptor;
pub use cor20_header::Cor20Header;
pub use data_directory::DataDirectory;
pub use debug_container::{CodeView, DebugContainer};
pub use debug_directory::DebugDirectory;
pub use dos_header::DosHeader;
pub use error::ParseError;
pub use executable::Executable;
pub use export_container::{ExportContainer, ExportFunction};
pub use export_directory::ExportDirectory;
pub use file_header::FileHeader;
pub use guid::GUID;
pub use import_container::{ImageImportByName, ImageThunkData32, ImageThunkData64, ImportContainer,
    ImportDescriptor, ImportFunction};
pub use load_config_container::LoadConfigContainer;
pub use load_config_directory::{LoadConfigCodeIntegrity, LoadConfigDirectory, LoadConfigDirectory32,
    LoadConfigDirectory64};
pub use optional_header::OptionalHeader;
pub use section_header::SectionHeader;
