//! Typed descriptions of the user-facing configuration properties.
//!
//! Each specialization struct describes one widget kind of the settings
//! UI: its bounds, step, and presentation. The host-facing glue turns a
//! descriptor into the host's property registration calls; the library
//! only carries the data.

use vstd::prelude::*;

verus! {

/// A toggle property.
#[derive(Clone, Copy, PartialEq, Eq, Structural, Debug)]
pub struct PropertyDescriptorSpecializationBool {}

/// A bounded integer property, rendered as a slider when asked.
#[derive(Clone, Copy, PartialEq, Eq, Structural, Debug)]
pub struct PropertyDescriptorSpecializationI32 {
    pub min: i32,
    pub max: i32,
    pub step: i32,
    pub slider: bool,
}

/// How a string property is entered.
#[derive(Clone, Copy, PartialEq, Eq, Structural, Debug)]
pub enum StringType {
    Default,
    Password,
    Multiline,
}

/// A text property.
#[derive(Clone, Copy, PartialEq, Eq, Structural, Debug)]
pub struct PropertyDescriptorSpecializationString {
    pub string_type: StringType,
}

/// What a path property selects.
#[derive(Clone, Copy, PartialEq, Eq, Structural, Debug)]
pub enum PathType {
    File,
    FileSave,
    Directory,
}

/// A clickable button property carrying its click callback. The callback
/// returns `true` when the property layout changed and the widgets must be
/// rebuilt.
pub struct PropertyDescriptorSpecializationButton<F: Fn() -> bool> {
    callback: F,
}

impl<F: Fn() -> bool> PropertyDescriptorSpecializationButton<F> {
    /// The stored click callback.
    pub closed spec fn spec_callback(self) -> F {
        self.callback
    }

    /// Describe a button with the callback to run when it is clicked.
    pub fn new(callback: F) -> (r: Self)
        ensures
            r.spec_callback() == callback,
    {
        Self { callback }
    }
}

/// A color-picker property.
#[derive(Clone, Copy, PartialEq, Eq, Structural, Debug)]
pub struct PropertyDescriptorSpecializationColor;

/// A fixed-choice list property.
#[derive(Clone, Copy, PartialEq, Eq, Structural, Debug)]
pub struct PropertyDescriptorSpecializationList {}

/// A font-picker property.
#[derive(Clone, Copy, PartialEq, Eq, Structural, Debug)]
pub struct PropertyDescriptorSpecializationFont {}

/// An editable list property.
#[derive(Clone, Copy, PartialEq, Eq, Structural, Debug)]
pub struct PropertyDescriptorSpecializationListEditable {}

/// A frame-rate picker property.
#[derive(Clone, Copy, PartialEq, Eq, Structural, Debug)]
pub struct PropertyDescriptorSpecializationFrameRate {}

} // verus!
