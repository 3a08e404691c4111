//! Animated PNG (APNG) frame and animation control.

use vstd::prelude::*;
use vstd::string::*;

verus! {

/// How to reset buffer of an animated png (APNG) at the end of a frame.
#[derive(Debug, Clone, Copy, PartialEq, Eq, Structural)]
pub enum DisposeOp {
    /// Leave the buffer unchanged.
    Keep,
    /// Clear buffer with the background color.
    Background,
    /// Reset the buffer to the state before the current frame.
    Previous,
}

/// How pixels are written into the buffer.
#[derive(Debug, Clone, Copy, PartialEq, Eq, Structural)]
pub enum BlendOp {
    /// Pixels overwrite the value at their position.
    Source,
    /// The new pixels are blended into the current state based on alpha.
    Over,
}

/// The code of a dispose operation in the fcTL chunk.
pub open spec fn dispose_op_code(op: DisposeOp) -> u8 {
    match op {
        DisposeOp::Keep => 0,
        DisposeOp::Background => 1,
        DisposeOp::Previous => 2,
    }
}

/// The code of a blend operation in the fcTL chunk.
pub open spec fn blend_op_code(op: BlendOp) -> u8 {
    match op {
        BlendOp::Source => 0,
        BlendOp::Over => 1,
    }
}

/// The name of a dispose operation as the APNG specification spells it.
pub open spec fn dispose_op_name(op: DisposeOp) -> Seq<char> {
    match op {
        DisposeOp::Keep => "DISPOSE_OP_NONE"@,
        DisposeOp::Background => "DISPOSE_OP_BACKGROUND"@,
        DisposeOp::Previous => "DISPOSE_OP_PREVIOUS"@,
    }
}

/// The name of a blend operation as the APNG specification spells it.
pub open spec fn blend_op_name(op: BlendOp) -> Seq<char> {
    match op {
        BlendOp::Source => "BLEND_OP_SOURCE"@,
        BlendOp::Over => "BLEND_OP_OVER"@,
    }
}

/// The fcTL codes and displayed names of the APNG operations, as the APNG
/// specification assigns them, and the fields of the default frame control.
pub proof fn lemma_apng_codes_and_names()
    ensures
        dispose_op_code(DisposeOp::Keep) == 0,
        dispose_op_code(DisposeOp::Background) == 1,
        dispose_op_code(DisposeOp::Previous) == 2,
        blend_op_code(BlendOp::Source) == 0,
        blend_op_code(BlendOp::Over) == 1,
        dispose_op_name(DisposeOp::Keep) == "DISPOSE_OP_NONE"@,
        dispose_op_name(DisposeOp::Background) == "DISPOSE_OP_BACKGROUND"@,
        dispose_op_name(DisposeOp::Previous) == "DISPOSE_OP_PREVIOUS"@,
        blend_op_name(BlendOp::Source) == "BLEND_OP_SOURCE"@,
        blend_op_name(BlendOp::Over) == "BLEND_OP_OVER"@,
        default_frame_control().sequence_number == 0,
        default_frame_control().width == 0 && default_frame_control().height == 0,
        default_frame_control().x_offset == 0 && default_frame_control().y_offset == 0,
        default_frame_control().delay_num == 1 && default_frame_control().delay_den == 30,
        default_frame_control().dispose_op == DisposeOp::Keep,
        default_frame_control().blend_op == BlendOp::Source,
{
}

impl DisposeOp {
    /// u8 -> Self. Using enum_primitive or transmute is probably the right thing but this will do for now.
    pub fn from_u8(n: u8) -> (r: Option<DisposeOp>)
        ensures
            r matches Some(op) ==> dispose_op_code(op) == n,
            forall|op: DisposeOp| dispose_op_code(op) == n ==> r == Some(op),
            r is None <==> n > 2,
    {
        match n {
            0 => Some(DisposeOp::Keep),
            1 => Some(DisposeOp::Background),
            2 => Some(DisposeOp::Previous),
            _ => None,
        }
    }

    /// The code of this operation in the fcTL chunk.
    pub fn into_u8(self) -> (r: u8)
        ensures
            r == dispose_op_code(self),
    {
        match self {
            DisposeOp::Keep => 0,
            DisposeOp::Background => 1,
            DisposeOp::Previous => 2,
        }
    }

    /// The name of this operation, as it is displayed.
    pub fn to_string(&self) -> (r: String)
        ensures
            r@ == dispose_op_name(*self),
    {
        let name = match *self {
            DisposeOp::Keep => "DISPOSE_OP_NONE",
            DisposeOp::Background => "DISPOSE_OP_BACKGROUND",
            DisposeOp::Previous => "DISPOSE_OP_PREVIOUS",
        };
        String::from_str(name)
    }
}

impl BlendOp {
    /// u8 -> Self. Using enum_primitive or transmute is probably the right thing but this will do for now.
    pub fn from_u8(n: u8) -> (r: Option<BlendOp>)
        ensures
            r matches Some(op) ==> blend_op_code(op) == n,
            forall|op: BlendOp| blend_op_code(op) == n ==> r == Some(op),
            r is None <==> n > 1,
    {
        match n {
            0 => Some(BlendOp::Source),
            1 => Some(BlendOp::Over),
            _ => None,
        }
    }

    /// The code of this operation in the fcTL chunk.
    pub fn into_u8(self) -> (r: u8)
        ensures
            r == blend_op_code(self),
    {
        match self {
            BlendOp::Source => 0,
            BlendOp::Over => 1,
        }
    }

    /// The name of this operation, as it is displayed.
    pub fn to_string(&self) -> (r: String)
        ensures
            r@ == blend_op_name(*self),
    {
        let name = match *self {
            BlendOp::Source => "BLEND_OP_SOURCE",
            BlendOp::Over => "BLEND_OP_OVER",
        };
        String::from_str(name)
    }
}

/// Frame control information
#[derive(Clone, Copy, Debug)]
pub struct FrameControl {
    /// Sequence number of the animation chunk, starting from 0
    pub sequence_number: u32,
    /// Width of the following frame
    pub width: u32,
    /// Height of the following frame
    pub height: u32,
    /// X position at which to render the following frame
    pub x_offset: u32,
    /// Y position at which to render the following frame
    pub y_offset: u32,
    /// Frame delay fraction numerator
    pub delay_num: u16,
    /// Frame delay fraction denominator
    pub delay_den: u16,
    /// Type of frame area disposal to be done after rendering this frame
    pub dispose_op: DisposeOp,
    /// Type of frame area rendering for this frame
    pub blend_op: BlendOp,
}

/// The frame control that `FrameControl::default` gives: a frame of no area
/// at the origin, shown for 1/30 s, left as it is and drawn over the buffer.
pub open spec fn default_frame_control() -> FrameControl {
    FrameControl {
        sequence_number: 0,
        width: 0,
        height: 0,
        x_offset: 0,
        y_offset: 0,
        delay_num: 1,
        delay_den: 30,
        dispose_op: DisposeOp::Keep,
        blend_op: BlendOp::Source,
    }
}

impl Default for FrameControl {
    fn default() -> (r: FrameControl)
        ensures
            r == default_frame_control(),
    {
        FrameControl {
            sequence_number: 0,
            width: 0,
            height: 0,
            x_offset: 0,
            y_offset: 0,
            delay_num: 1,
            delay_den: 30,
            dispose_op: DisposeOp::Keep,
            blend_op: BlendOp::Source,
        }
    }
}

impl FrameControl {
    /// Sets the sequence number, leaving the other fields as they are.
    pub fn set_seq_num(&mut self, s: u32)
        ensures
            *final(self) == (FrameControl { sequence_number: s, ..*old(self) }),
    {
        self.sequence_number = s;
    }

    /// Advances the sequence number by `i`, leaving the other fields as they are.
    pub fn inc_seq_num(&mut self, i: u32)
        requires
            old(self).sequence_number + i <= u32::MAX,
        ensures
            *final(self) == (FrameControl {
                sequence_number: (old(self).sequence_number + i) as u32,
                ..*old(self)
            }),
    {
        self.sequence_number = self.sequence_number + i;
    }
}

/// Animation control information
#[derive(Clone, Copy, Debug)]
pub struct AnimationControl {
    /// Number of frames
    pub num_frames: u32,
    /// Number of times to loop this APNG.  0 indicates infinite looping.
    pub num_plays: u32,
}

} // verus!
