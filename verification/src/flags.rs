//! The processor status register, one named boolean per 6502 status bit.

use vstd::prelude::*;

verus! {

/// The display character of one status bit.
pub open spec fn flag_char(b: bool) -> char {
    if b {
        '1'
    } else {
        '0'
    }
}

/// Packing a flag set into its status byte and unpacking that byte
/// restores every flag, and packing what a byte unpacks to restores the
/// byte: the status byte carries the flags exactly.
#[verifier::rlimit(100)]
#[verifier::spinoff_prover]
pub proof fn lemma_flags_byte_roundtrip(f: Flags, b: u8)
    ensures
        Flags::from_byte_spec(f.to_byte_spec()) == f,
        Flags::from_byte_spec(b).to_byte_spec() == b,
{
    let nb: u8 = if f.negative { 1 } else { 0 };
    let ob: u8 = if f.overflow { 1 } else { 0 };
    let b2b: u8 = if f.break2 { 1 } else { 0 };
    let bb: u8 = if f.brk { 1 } else { 0 };
    let db: u8 = if f.decimal { 1 } else { 0 };
    let ib: u8 = if f.interrupt_disable { 1 } else { 0 };
    let zb: u8 = if f.zero { 1 } else { 0 };
    let cb: u8 = if f.carry { 1 } else { 0 };
    let v: u8 = f.to_byte_spec();
    assert(v == nb * 0x80 + ob * 0x40 + b2b * 0x20 + bb * 0x10 + db * 0x08 + ib * 0x04 + zb * 0x02
        + cb);
    assert((nb <= 1 && ob <= 1 && b2b <= 1 && bb <= 1 && db <= 1 && ib <= 1 && zb <= 1 && cb <= 1
        && v == nb * 0x80 + ob * 0x40 + b2b * 0x20 + bb * 0x10 + db * 0x08 + ib * 0x04 + zb * 0x02
        + cb) ==> (v / 0x80 % 2 == nb && v / 0x40 % 2 == ob && v / 0x20 % 2 == b2b && v / 0x10 % 2
        == bb && v / 0x08 % 2 == db && v / 0x04 % 2 == ib && v / 0x02 % 2 == zb && v % 2 == cb))
        by (bit_vector);
    assert((b / 0x80 % 2) * 0x80 + (b / 0x40 % 2) * 0x40 + (b / 0x20 % 2) * 0x20 + (b / 0x10 % 2)
        * 0x10 + (b / 0x08 % 2) * 0x08 + (b / 0x04 % 2) * 0x04 + (b / 0x02 % 2) * 0x02 + b % 2
        == b) by (bit_vector);
}

/// Processor status flags. The packed byte layout, used when a copy of the
/// flags is pushed on or pulled from the stack, is
/// `N V B2 B D I Z C` from bit 7 down to bit 0.
#[derive(Clone, Copy, PartialEq, Eq, Structural, Debug)]
pub struct Flags {
    pub negative: bool,
    pub overflow: bool,
    /// Unused/reserved bit 5; forced set in every pushed copy.
    pub break2: bool,
    pub brk: bool,
    pub decimal: bool,
    pub interrupt_disable: bool,
    pub zero: bool,
    pub carry: bool,
}

impl Flags {
    /// The packed status byte for this flag set.
    pub open spec fn to_byte_spec(self) -> u8 {
        ((if self.negative { 0x80int } else { 0 })
            + (if self.overflow { 0x40int } else { 0 })
            + (if self.break2 { 0x20int } else { 0 })
            + (if self.brk { 0x10int } else { 0 })
            + (if self.decimal { 0x08int } else { 0 })
            + (if self.interrupt_disable { 0x04int } else { 0 })
            + (if self.zero { 0x02int } else { 0 })
            + (if self.carry { 0x01int } else { 0 })) as u8
    }

    /// The flag set encoded by a packed status byte.
    pub open spec fn from_byte_spec(b: u8) -> Flags {
        Flags {
            negative: b / 0x80 % 2 == 1,
            overflow: b / 0x40 % 2 == 1,
            break2: b / 0x20 % 2 == 1,
            brk: b / 0x10 % 2 == 1,
            decimal: b / 0x08 % 2 == 1,
            interrupt_disable: b / 0x04 % 2 == 1,
            zero: b / 0x02 % 2 == 1,
            carry: b % 2 == 1,
        }
    }

    /// The flag state established by a reset: InterruptDisable and Break2
    /// set, every other flag clear.
    pub open spec fn reset_spec() -> Flags {
        Flags {
            negative: false,
            overflow: false,
            break2: true,
            brk: false,
            decimal: false,
            interrupt_disable: true,
            zero: false,
            carry: false,
        }
    }

    pub fn to_byte(&self) -> (r: u8)
        ensures
            r == self.to_byte_spec(),
    {
        let mut b: u8 = 0;
        if self.negative {
            b = b + 0x80;
        }
        if self.overflow {
            b = b + 0x40;
        }
        if self.break2 {
            b = b + 0x20;
        }
        if self.brk {
            b = b + 0x10;
        }
        if self.decimal {
            b = b + 0x08;
        }
        if self.interrupt_disable {
            b = b + 0x04;
        }
        if self.zero {
            b = b + 0x02;
        }
        if self.carry {
            b = b + 0x01;
        }
        b
    }

    pub fn from_byte(b: u8) -> (r: Flags)
        ensures
            r == Flags::from_byte_spec(b),
    {
        Flags {
            negative: (b / 0x80) % 2 == 1,
            overflow: (b / 0x40) % 2 == 1,
            break2: (b / 0x20) % 2 == 1,
            brk: (b / 0x10) % 2 == 1,
            decimal: (b / 0x08) % 2 == 1,
            interrupt_disable: (b / 0x04) % 2 == 1,
            zero: (b / 0x02) % 2 == 1,
            carry: b % 2 == 1,
        }
    }

    /// The display line for this flag set: a one or a zero per flag, each
    /// followed by a space, in the order N O B2 B D I Z C.
    pub open spec fn line_spec(self) -> Seq<char> {
        seq![
            flag_char(self.negative),
            ' ',
            flag_char(self.overflow),
            ' ',
            flag_char(self.break2),
            ' ',
            flag_char(self.brk),
            ' ',
            flag_char(self.decimal),
            ' ',
            flag_char(self.interrupt_disable),
            ' ',
            flag_char(self.zero),
            ' ',
            flag_char(self.carry),
            ' ',
        ]
    }

    /// Renders the flags for display, one column per flag in the order
    /// N O B2 B D I Z C.
    pub fn to_line(&self) -> (r: String)
        ensures
            r@ == self.line_spec(),
    {
        proof {
            reveal_strlit("");
            reveal_strlit("1 ");
            reveal_strlit("0 ");
        }
        let mut r = String::from_str("");
        let bits: [bool; 8] = [
            self.negative,
            self.overflow,
            self.break2,
            self.brk,
            self.decimal,
            self.interrupt_disable,
            self.zero,
            self.carry,
        ];
        let mut i: usize = 0;
        while i < 8
            invariant
                i <= 8,
                bits@ == seq![
                    self.negative,
                    self.overflow,
                    self.break2,
                    self.brk,
                    self.decimal,
                    self.interrupt_disable,
                    self.zero,
                    self.carry,
                ],
                r@ == self.line_spec().take(2 * i as int),
            decreases 8 - i,
        {
            if bits[i] {
                r.append("1 ");
            } else {
                r.append("0 ");
            }
            proof {
                reveal_strlit("1 ");
                reveal_strlit("0 ");
                assert(r@ =~= self.line_spec().take(2 * (i + 1) as int));
            }
            i = i + 1;
        }
        proof {
            assert(self.line_spec().take(16) =~= self.line_spec());
        }
        r
    }

    pub fn reset() -> (r: Flags)
        ensures
            r == Flags::reset_spec(),
    {
        Flags {
            negative: false,
            overflow: false,
            break2: true,
            brk: false,
            decimal: false,
            interrupt_disable: true,
            zero: false,
            carry: false,
        }
    }
}

} // verus!
