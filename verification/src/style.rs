//! The visual style model: colors, the immutable style context handed to the
//! compiler, and the style carried by each styled run.

use vstd::prelude::*;

verus! {

/// An RGB color triple, as the folder and run models store it.
#[derive(Clone, Copy, PartialEq, Eq, Structural, Debug)]
pub struct Rgb {
    pub r: u8,
    pub g: u8,
    pub b: u8,
}

impl Rgb {
    pub fn new(r: u8, g: u8, b: u8) -> (c: Rgb)
        ensures
            c == (Rgb { r, g, b }),
    {
        Rgb { r, g, b }
    }
}

/// The immutable style context passed into every compiler call: base font
/// metrics and the color palette. Sizes are in whole display points.
#[derive(Clone, Copy, PartialEq, Eq, Structural, Debug)]
pub struct StyleContext {
    /// Font size of ordinary body text.
    pub body_size: u32,
    /// Font size of a level-1 heading; deeper levels step down from it.
    pub heading_size: u32,
    /// Font size of inline code spans.
    pub mono_size: u32,
    /// Color of ordinary text.
    pub text_color: Rgb,
    /// Alternate color used for strong ("emphasized") spans.
    pub strong_color: Rgb,
}

/// One concrete visual style: what a single styled run renders with.
#[derive(Clone, Copy, PartialEq, Eq, Structural, Debug)]
pub struct RunStyle {
    pub size: u32,
    pub italic: bool,
    pub monospace: bool,
    pub color: Rgb,
}

impl StyleContext {
    /// The base style: body font, upright, proportional, ordinary color.
    pub open spec fn spec_base_style(self) -> RunStyle {
        RunStyle {
            size: self.body_size,
            italic: false,
            monospace: false,
            color: self.text_color,
        }
    }

    pub fn base_style(&self) -> (s: RunStyle)
        ensures
            s == self.spec_base_style(),
    {
        RunStyle {
            size: self.body_size,
            italic: false,
            monospace: false,
            color: self.text_color,
        }
    }

    /// Font size of a heading: the heading size steps down by two points per
    /// level beyond level 1, never below zero.
    pub open spec fn spec_heading_px(self, level: u8) -> u32 {
        if level <= 1 {
            self.heading_size
        } else if 2 * ((level - 1) as int) >= self.heading_size {
            0
        } else {
            (self.heading_size - 2 * ((level - 1) as int)) as u32
        }
    }

    pub fn heading_px(&self, level: u8) -> (px: u32)
        ensures
            px == self.spec_heading_px(level),
    {
        if level <= 1 {
            self.heading_size
        } else {
            let step: u32 = 2 * ((level - 1) as u32);
            if step >= self.heading_size {
                0
            } else {
                self.heading_size - step
            }
        }
    }
}

/// A contiguous text span tagged with one concrete visual style. Transient:
/// recomputed on every render pass, never persisted.
#[derive(Clone, PartialEq, Eq, Debug)]
pub struct StyledRun {
    pub text: String,
    pub style: RunStyle,
}

/// The mathematical value of a styled run: its text as a character sequence
/// together with its style.
pub struct RunV {
    pub text: Seq<char>,
    pub style: RunStyle,
}

impl View for StyledRun {
    type V = RunV;

    open spec fn view(&self) -> RunV {
        RunV { text: self.text@, style: self.style }
    }
}

/// The sequence of run values that a vector of styled runs stands for.
pub open spec fn runs_of(v: Seq<StyledRun>) -> Seq<RunV> {
    v.map_values(|r: StyledRun| r@)
}

} // verus!
