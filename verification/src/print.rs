//! The framebuffer and the named modules that kernel messages are printed
//! under: which colour a message gets and where an aligned line starts.
use vstd::prelude::*;

verus! {

/// The framebuffer that the firmware set up.
#[derive(Clone, Copy)]
pub struct GopFramebuffer {
    pub base: u64,
    pub width: u32,
    pub height: u32,
    pub pixel_per_scaneline: u32,
    pub framebuffer_size: u32,
}

impl GopFramebuffer {
    pub fn get_base(&self) -> (r: u64)
        ensures
            r == self.base,
    {
        self.base
    }

    /// Size of the framebuffer in bytes.
    pub fn get_size(&self) -> (r: u32)
        ensures
            r == self.framebuffer_size,
    {
        self.framebuffer_size
    }

    /// Pages the framebuffer covers: its size rounded up to whole pages.
    pub fn pages(&self) -> (r: u32)
        ensures
            r == self.framebuffer_size / 0x1000 + if self.framebuffer_size % 0x1000 != 0 { 1int } else { 0int },
    {
        let mut pages = self.framebuffer_size / 0x1000;
        if self.framebuffer_size % 0x1000 != 0 {
            pages = pages + 1;
        }
        pages
    }
}

/// Where a line of text is placed on its row.
#[derive(Clone, Copy, PartialEq, Eq, Structural, Debug)]
pub enum StringAlignment {
    Center,
    Left,
    Right,
}

impl StringAlignment {
    /// The column at which a string of `len` characters starts on a row of
    /// `chars_per_row` characters.
    pub fn column(&self, chars_per_row: u32, len: u32) -> (r: u32)
        requires
            *self == StringAlignment::Right ==> len <= chars_per_row,
            *self == StringAlignment::Center ==> len / 2 <= chars_per_row / 2,
        ensures
            r == match *self {
                StringAlignment::Right => (chars_per_row - len) as u32,
                StringAlignment::Left => 0,
                StringAlignment::Center => (chars_per_row / 2 - len / 2) as u32,
            },
    {
        match self {
            StringAlignment::Right => chars_per_row - len,
            StringAlignment::Left => 0,
            StringAlignment::Center => chars_per_row / 2 - len / 2,
        }
    }
}

/// The kind of the message a module is printing.
#[derive(Clone, Copy, PartialEq, Eq, Structural, Debug)]
pub enum ModuleWriteMode {
    Neutral,
    Success,
    Info,
    Warn,
    Error,
}

impl ModuleWriteMode {
    /// The colour, as 0xRRGGBB, that messages of this kind are printed in.
    pub fn color(&self) -> (r: u32)
        ensures
            r == match *self {
                ModuleWriteMode::Success => 0x00FF00u32,
                ModuleWriteMode::Error => 0xFF0000u32,
                ModuleWriteMode::Neutral => 0x000000u32,
                ModuleWriteMode::Warn => 0xFFFF00u32,
                ModuleWriteMode::Info => 0x0000FFu32,
            },
    {
        match self {
            ModuleWriteMode::Success => 0x00FF00,
            ModuleWriteMode::Error => 0xFF0000,
            ModuleWriteMode::Neutral => 0x000000,
            ModuleWriteMode::Warn => 0xFFFF00,
            ModuleWriteMode::Info => 0x0000FF,
        }
    }
}

/// A part of the kernel that prints messages under its name.
pub struct Module<'a> {
    pub name: &'a str,
    pub deconstructed: bool,
    pub write_mode: ModuleWriteMode,
}

impl<'a> Module<'a> {
    /// The module that stands for none: named "INVALID MODULE" and already taken down.
    pub fn empty() -> (r: Self)
        ensures
            r.name@ == "INVALID MODULE"@,
            r.deconstructed,
            r.write_mode == ModuleWriteMode::Neutral,
    {
        Module { name: "INVALID MODULE", deconstructed: true, write_mode: ModuleWriteMode::Neutral }
    }

    /// A live module named `name`.
    pub fn new(name: &'a str) -> (r: Module<'a>)
        ensures
            r.name == name,
            !r.deconstructed,
            r.write_mode == ModuleWriteMode::Neutral,
    {
        Module { name, deconstructed: false, write_mode: ModuleWriteMode::Neutral }
    }

    pub fn name(&self) -> (r: &'a str)
        ensures
            r == self.name,
    {
        self.name
    }

    /// Marks the module as taken down.
    pub fn destory(&mut self)
        ensures
            final(self).deconstructed,
            final(self).name == old(self).name,
            final(self).write_mode == old(self).write_mode,
    {
        self.deconstructed = true;
    }

    /// Switches the kind of the messages that follow.
    pub fn set_write_mode(&mut self, mode: ModuleWriteMode)
        ensures
            final(self).write_mode == mode,
            final(self).name == old(self).name,
            final(self).deconstructed == old(self).deconstructed,
    {
        self.write_mode = mode;
    }
}

} // verus!
