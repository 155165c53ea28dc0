//! Configuration files, their sections and their typed options.

pub mod boolean;
pub mod color;
pub mod config;
pub mod config_options;
pub mod enums;
pub mod integer;
pub mod section;
pub mod string;

pub use boolean::{BooleanOption, BooleanOptionSettings};
pub use color::{ColorOption, ColorOptionSettings};
pub use config::{
    Conf, Config, ConfigError, ConfigPointers, ConfigReloadCallback, OptionChanged,
};
pub use config_options::{
    BaseConfigOption, ConfigOptions, FromPtrs, HiddenConfigOptionT, OptionCallback,
    OptionCallbacks, OptionCheckCallback, OptionPointers, OptionType,
};
pub use enums::{EnumOption, EnumOptionSettings};
pub use integer::{IntegerOption, IntegerOptionSettings};
pub use section::{
    ConfigOption, ConfigOptionPointers, ConfigSection, ConfigSectionPointers,
    ConfigSectionSettings, OptionDescription, SectionHandle, SectionHandleMut,
    SectionReadCallback, SectionWriteCallback, SectionWriteDefaultCallback,
};
pub use string::{StringOption, StringOptionSettings};
