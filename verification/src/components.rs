//! The nodes of the interface tree.

pub mod authoring;
pub mod home;
pub mod modlist;
pub mod optionselector;
pub mod quickoptions;
pub mod remotemods;
pub mod textinput;
