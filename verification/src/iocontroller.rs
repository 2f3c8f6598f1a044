//! The arcade's I/O devices as the CPU's OUT and IN opcodes see them: a
//! 16-bit shift register with a 3-bit read offset (ports 2, 3 and 4), a
//! bit-mapped input latch driven by key presses (port 1), and two audio
//! ports (3 and 5) whose written values are forwarded to the host's sound
//! sink as triggers.

use vstd::prelude::*;
use crate::cpu::pair16;

verus! {

/// A host key the cabinet's controls are mapped to. Keys the cabinet does
/// not use arrive as `Other`.
#[derive(Clone, Copy, PartialEq, Eq, Structural, Debug)]
pub enum Key {
    C,
    Return,
    D1,
    Space,
    Period,
    Left,
    Z,
    Right,
    X,
    Other,
}

/// An OUT to one of the two audio ports, to be delivered to the host's
/// sound sink. The value is a bitmask naming sounds to start or stop.
#[derive(Clone, Copy, PartialEq, Eq, Structural, Debug)]
pub struct AudioTrigger {
    pub port: u8,
    pub value: u8,
}

/// The shift device's two latches and offset, plus the input latch.
pub struct IOController {
    pub input: u8,
    pub shift0: u8,
    pub shift1: u8,
    pub shift_offset: u8,
}

/// The shift offset always holds only its low three bits.
pub open spec fn io_wf(io: IOController) -> bool {
    io.shift_offset <= 7
}

/// Which input-latch bit a key drives: C is bit 0 (coin), Return and 1 are
/// bit 2 (start), Space and Period bit 4 (fire), Left and Z bit 5, Right and
/// X bit 6; every other key shares the unused bit 7.
pub open spec fn spec_key_bit(key: Key) -> u8 {
    match key {
        Key::C => 0,
        Key::Return => 2,
        Key::D1 => 2,
        Key::Space => 4,
        Key::Period => 4,
        Key::Left => 5,
        Key::Z => 5,
        Key::Right => 6,
        Key::X => 6,
        Key::Other => 7,
    }
}

/// A write to port 2 stores the low three bits as the shift offset; a write
/// to port 4 feeds the 16-bit shift register from the left (the old high
/// latch drops to the low one). Writes to other ports leave the device
/// unchanged; ports 3 and 5 are audio, reported separately.
pub open spec fn spec_io_write(io: IOController, port: u8, value: u8) -> IOController {
    if port == 2 {
        IOController { shift_offset: value % 8, ..io }
    } else if port == 4 {
        IOController { shift0: io.shift1, shift1: value, ..io }
    } else {
        io
    }
}

/// Writes to ports 3 and 5 are audio triggers for the host; the core only
/// forwards them.
pub open spec fn spec_audio_out(port: u8, value: u8) -> Option<AudioTrigger> {
    if port == 3 || port == 5 {
        Some(AudioTrigger { port, value })
    } else {
        None
    }
}

/// Port 0 reads as the constant 0xF, port 1 as the input latch, and port 3
/// as the byte of the concatenated shift latches at bit offset
/// 8 - shift_offset. Every other port reads as 0.
pub open spec fn spec_io_read(io: IOController, port: u8) -> u8 {
    if port == 0 {
        0xF
    } else if port == 1 {
        io.input
    } else if port == 3 {
        (pair16(io.shift1, io.shift0) >> ((8 - io.shift_offset) as u16)) as u8
    } else {
        0
    }
}

/// The input latch after a key event: value 1 sets the key's bit, any other
/// value clears it.
pub open spec fn spec_set_key(io: IOController, key: Key, value: u8) -> IOController {
    if value == 1 {
        IOController { input: io.input | (1u8 << spec_key_bit(key)), ..io }
    } else {
        IOController { input: io.input & !(1u8 << spec_key_bit(key)), ..io }
    }
}

impl IOController {
    /// Power-on state: bit 2 of the input latch starts set.
    pub fn new() -> (r: IOController)
        ensures
            r == (IOController { input: 4, shift0: 0, shift1: 0, shift_offset: 0 }),
            io_wf(r),
    {
        IOController { input: 4, shift0: 0, shift1: 0, shift_offset: 0 }
    }

    /// An OUT to `port`: updates the shift device and hands back the audio
    /// trigger when the port is one of the two audio ports.
    pub fn write(&mut self, port: u8, value: u8) -> (t: Option<AudioTrigger>)
        ensures
            *final(self) == spec_io_write(*old(self), port, value),
            t == spec_audio_out(port, value),
            io_wf(*old(self)) ==> io_wf(*final(self)),
    {
        match port {
            2 => {
                self.shift_offset = value % 8;
                None
            },
            3 => Some(AudioTrigger { port: 3, value }),
            4 => {
                self.shift0 = self.shift1;
                self.shift1 = value;
                None
            },
            5 => Some(AudioTrigger { port: 5, value }),
            _ => None,
        }
    }

    /// An IN from `port`.
    pub fn read(&self, port: u8) -> (r: u8)
        requires
            io_wf(*self),
        ensures
            r == spec_io_read(*self, port),
    {
        match port {
            0 => 0xF,
            1 => self.input,
            2 => 0,
            3 => {
                let v: u16 = (self.shift1 as u16) * 256 + (self.shift0 as u16);
                #[verifier::truncate] ((v >> ((8 - self.shift_offset) as u16)) as u8)
            },
            _ => 0,
        }
    }

    /// A key event: value 1 is a press (the bit is set), anything else a
    /// release (the bit is cleared).
    pub fn set_key(&mut self, key: Key, value: u8)
        ensures
            *final(self) == spec_set_key(*old(self), key, value),
            io_wf(*old(self)) ==> io_wf(*final(self)),
    {
        let shift: u8 = match key {
            Key::C => 0,
            Key::Return => 2,
            Key::D1 => 2,
            Key::Space => 4,
            Key::Period => 4,
            Key::Left => 5,
            Key::Z => 5,
            Key::Right => 6,
            Key::X => 6,
            Key::Other => 7,
        };
        if value == 1 {
            self.input = self.input | (1u8 << shift);
        } else {
            self.input = self.input & !(1u8 << shift);
        }
    }
}

/// The sounds that bits `lo` up to (excluding) `hi` of a trigger value ask
/// to start; a set bit k names sound `base + k`.
pub open spec fn spec_starts(value: u8, base: u8, lo: u8, hi: u8) -> Seq<u8>
    decreases hi - lo,
{
    if lo >= hi {
        Seq::empty()
    } else {
        spec_starts(value, base, lo, (hi - 1) as u8)
            + if (value >> ((hi - 1) as u8)) & 1 == 1 {
                seq![(base + hi - 1) as u8]
            } else {
                Seq::empty()
            }
    }
}

/// The sound indices an audio trigger asks to start: a trigger on port 3
/// names sounds 0..3 in its bits 0..3, one on port 5 names sounds 4..8 in
/// its bits 0..4.
pub open spec fn spec_sound_starts(port: u8, value: u8) -> Seq<u8> {
    if port == 3 {
        spec_starts(value, 0, 0, 4)
    } else {
        spec_starts(value, 4, 0, 5)
    }
}

/// The sounds a forwarded audio trigger asks the host to start, in rising
/// order of sound index.
pub fn sound_starts(port: u8, value: u8) -> (r: Vec<u8>)
    ensures
        r@ == spec_sound_starts(port, value),
{
    let mut r: Vec<u8> = Vec::new();
    if port == 3 {
        let mut i: u8 = 0;
        while i < 4
            invariant
                i <= 4,
                r@ == spec_starts(value, 0, 0, i),
            decreases 4 - i,
        {
            if (value >> i) & 1 == 1 {
                r.push(i);
            }
            i = i + 1;
            proof {
                assert(r@ =~= spec_starts(value, 0, 0, i));
            }
        }
    } else {
        let mut i: u8 = 0;
        while i < 5
            invariant
                i <= 5,
                r@ == spec_starts(value, 4, 0, i),
            decreases 5 - i,
        {
            if (value >> i) & 1 == 1 {
                r.push(4 + i);
            }
            i = i + 1;
            proof {
                assert(r@ =~= spec_starts(value, 4, 0, i));
            }
        }
    }
    r
}

/// Whether a forwarded audio trigger asks the host to stop the looped sound:
/// sound 0 (port 3, bit 0) loops while its bit stays high and must stop when
/// the bit goes low.
pub fn stop_looped(port: u8, value: u8) -> (r: bool)
    ensures
        r == (port == 3 && value & 1 == 0),
{
    port == 3 && value & 1 == 0
}

} // verus!
