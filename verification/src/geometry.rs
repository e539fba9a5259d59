//! Sizes, positions and the scale that relates logical to physical pixels.

use vstd::prelude::*;

verus! {

/// A double-precision number, by its IEEE 754 bit pattern.
///
/// The library stores, passes on and compares such numbers. Arithmetic on them belongs to the
/// caller. `==` compares the patterns; `same_value` compares the numbers.
#[derive(Debug, Clone, Copy, PartialEq, Eq, Structural)]
pub struct Real {
    pub bits: u64,
}

impl Real {
    /// The bit pattern without its sign.
    pub open spec fn magnitude(self) -> int {
        self.bits as int % 0x8000_0000_0000_0000
    }

    /// All exponent bits are set, and so is some bit of the fraction.
    pub open spec fn is_nan(self) -> bool {
        self.magnitude() > 0x7FF0_0000_0000_0000
    }

    pub open spec fn is_zero(self) -> bool {
        self.magnitude() == 0
    }

    /// IEEE 754 equality: a NaN equals nothing, and the two zeros are equal.
    pub open spec fn equals(self, other: Real) -> bool {
        &&& !self.is_nan()
        &&& !other.is_nan()
        &&& self.bits == other.bits || (self.is_zero() && other.is_zero())
    }

    /// Whether the two numbers compare equal as doubles.
    pub fn same_value(&self, other: &Real) -> (r: bool)
        ensures
            r == self.equals(*other),
    {
        let a: u64 = self.bits % 0x8000_0000_0000_0000;
        let b: u64 = other.bits % 0x8000_0000_0000_0000;
        if a > 0x7FF0_0000_0000_0000 || b > 0x7FF0_0000_0000_0000 {
            false
        } else {
            self.bits == other.bits || (a == 0 && b == 0)
        }
    }
}

/// A size in logical pixels.
#[derive(Debug, Clone, Copy, PartialEq, Eq, Structural)]
pub struct Size {
    pub width: Real,
    pub height: Real,
}

impl Size {
    pub open spec fn equals(self, other: Size) -> bool {
        self.width.equals(other.width) && self.height.equals(other.height)
    }

    pub open spec fn has_nan(self) -> bool {
        self.width.is_nan() || self.height.is_nan()
    }

    /// Whether both extents compare equal as doubles.
    pub fn same_value(&self, other: &Size) -> (r: bool)
        ensures
            r == self.equals(*other),
    {
        self.width.same_value(&other.width) && self.height.same_value(&other.height)
    }
}

/// A size in physical pixels.
#[derive(Debug, Clone, Copy, PartialEq, Eq, Structural)]
pub struct PhySize {
    pub width: u32,
    pub height: u32,
}

/// A position in physical pixels.
#[derive(Debug, Clone, Copy, PartialEq, Eq, Structural)]
pub struct PhyPoint {
    pub x: i32,
    pub y: i32,
}

/// The size of a window's client area in both units, and the scale between them.
#[derive(Debug, Clone, Copy, PartialEq, Eq, Structural)]
pub struct WindowInfo {
    pub physical_size: PhySize,
    pub logical_size: Size,
    pub scale: Real,
}

impl WindowInfo {
    /// Some number in it is not a number.
    pub open spec fn has_nan(self) -> bool {
        self.logical_size.has_nan() || self.scale.is_nan()
    }

    /// The size and the scale compare equal, field by field.
    pub open spec fn equals(self, other: WindowInfo) -> bool {
        &&& self.physical_size == other.physical_size
        &&& self.logical_size.equals(other.logical_size)
        &&& self.scale.equals(other.scale)
    }

    /// The info of a window that is `physical_size` large at the given scale. `logical_size` is
    /// that size divided by the scale.
    pub fn from_physical_size(physical_size: PhySize, scale: Real, logical_size: Size) -> (r: Self)
        ensures
            r == (WindowInfo { physical_size, logical_size, scale }),
    {
        WindowInfo { physical_size, logical_size, scale }
    }

    /// The info of a window that is `logical_size` large at the given scale. `physical_size` is
    /// that size multiplied by the scale, in whole pixels.
    pub fn from_logical_size(logical_size: Size, scale: Real, physical_size: PhySize) -> (r: Self)
        ensures
            r == (WindowInfo { physical_size, logical_size, scale }),
    {
        WindowInfo { physical_size, logical_size, scale }
    }

    pub fn physical_size(&self) -> (r: PhySize)
        ensures
            r == self.physical_size,
    {
        self.physical_size
    }

    pub fn logical_size(&self) -> (r: Size)
        ensures
            r == self.logical_size,
    {
        self.logical_size
    }

    pub fn scale(&self) -> (r: Real)
        ensures
            r == self.scale,
    {
        self.scale
    }
}

/// Whether anything about the window differs between the two infos. Numbers are compared as
/// doubles, so an info that holds a NaN differs from every info, itself included.
pub fn window_info_changed(current: &WindowInfo, new: &WindowInfo) -> (r: bool)
    ensures
        r == !current.equals(*new),
{
    current.physical_size() != new.physical_size()
        || !current.logical_size().same_value(&new.logical_size())
        || !current.scale().same_value(&new.scale())
}

/// How a window's scale is found.
#[derive(Debug, Clone, Copy, PartialEq, Eq, Structural)]
pub enum WindowScalePolicy {
    /// From the DPI that the system reports for the window.
    SystemScaleFactor,
    /// A scale that the caller has fixed.
    ScaleFactor(Real),
}

impl WindowScalePolicy {
    pub fn follows_system(&self) -> (r: bool)
        ensures
            r == (*self is SystemScaleFactor),
    {
        match self {
            WindowScalePolicy::SystemScaleFactor => true,
            WindowScalePolicy::ScaleFactor(_) => false,
        }
    }
}

} // verus!
