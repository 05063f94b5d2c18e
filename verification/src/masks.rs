//! The composable wire masks: the set of currently-active modifier keys and
//! the set of currently-pressed mouse buttons, each packed into one byte
//! with one bit per flag.
//!
//! A mask is pure bit algebra: construction from flags, membership,
//! union/intersection/difference, and a canonical byte encoding equal to
//! the OR of the member bit values. Every byte decodes to a valid mask
//! (unused high bits are kept as opaque bits), decoding then encoding gives
//! the byte back, and encoding is injective.

use vstd::prelude::*;

use crate::conversions::spec_modifier_source;
use crate::conversions::spec_button_source;
use crate::conversions::spec_vk_to_mod;
use crate::conversions::spec_vk_to_mb;
use crate::hid::HidModifierKey;
use crate::hid::HidMouseButton;
use crate::keys::VirtualKey;

verus! {

/// A byte with at most one bit set tests as nonzero against another such
/// byte exactly when the two are the same bit.
proof fn lemma_byte_single_bits_eq(m: u8, n: u8)
    by (bit_vector)
    requires
        m == 1 || m == 2 || m == 4 || m == 8 || m == 16 || m == 32 || m == 64 || m == 128,
        n == 1 || n == 2 || n == 4 || n == 8 || n == 16 || n == 32 || n == 64 || n == 128,
    ensures
        (m & n != 0) == (m == n),
{
}

/// No bit is set in the zero byte.
proof fn lemma_byte_zero_test(m: u8)
    by (bit_vector)
    ensures
        0u8 & m == 0,
{
}

/// A bit is set in a union exactly when it is set in either operand.
proof fn lemma_byte_or_test(a: u8, b: u8, m: u8)
    by (bit_vector)
    ensures
        ((a | b) & m != 0) == ((a & m != 0) || (b & m != 0)),
{
}

/// A single bit is set in an intersection exactly when it is set in both
/// operands.
proof fn lemma_byte_and_test(a: u8, b: u8, m: u8)
    by (bit_vector)
    requires
        m == 1 || m == 2 || m == 4 || m == 8 || m == 16 || m == 32 || m == 64 || m == 128,
    ensures
        ((a & b) & m != 0) == ((a & m != 0) && (b & m != 0)),
{
}

/// A single bit is set in a difference exactly when it is set in the first
/// operand and not in the second.
proof fn lemma_byte_diff_test(a: u8, b: u8, m: u8)
    by (bit_vector)
    requires
        m == 1 || m == 2 || m == 4 || m == 8 || m == 16 || m == 32 || m == 64 || m == 128,
    ensures
        ((a & !b) & m != 0) == ((a & m != 0) && !(b & m != 0)),
{
}

/// Byte union is commutative.
proof fn lemma_byte_or_comm(a: u8, b: u8)
    by (bit_vector)
    ensures
        a | b == b | a,
{
}

/// Byte union is associative.
proof fn lemma_byte_or_assoc(a: u8, b: u8, c: u8)
    by (bit_vector)
    ensures
        (a | b) | c == a | (b | c),
{
}

/// Byte union is idempotent.
proof fn lemma_byte_or_idem(a: u8)
    by (bit_vector)
    ensures
        a | a == a,
{
}

/// The bit of a modifier flag is one of the eight single-bit bytes.
proof fn lemma_mod_bit_single(f: HidModifierKey)
    ensures
        f.spec_bit() == 1 || f.spec_bit() == 2 || f.spec_bit() == 4 || f.spec_bit() == 8
            || f.spec_bit() == 16 || f.spec_bit() == 32 || f.spec_bit() == 64
            || f.spec_bit() == 128,
{
}

/// Distinct modifier flags own distinct bits.
proof fn lemma_mod_bit_injective(f: HidModifierKey, g: HidModifierKey)
    requires
        f.spec_bit() == g.spec_bit(),
    ensures
        f == g,
{
}

/// The bit of a mouse button is one of the five single-bit bytes it can own.
proof fn lemma_mb_bit_single(b: HidMouseButton)
    ensures
        b.spec_bit() == 1 || b.spec_bit() == 2 || b.spec_bit() == 4 || b.spec_bit() == 8
            || b.spec_bit() == 16,
{
}

/// Distinct mouse buttons own distinct bits.
proof fn lemma_mb_bit_injective(b: HidMouseButton, c: HidMouseButton)
    requires
        b.spec_bit() == c.spec_bit(),
    ensures
        b == c,
{
}

/// The set of currently-active modifier keys in canonical wire form: one
/// bit per modifier, encoded as a single byte.
#[derive(Clone, Copy, Debug, PartialEq, Eq, Hash, Structural)]
pub struct HidModifierKeys {
    pub bits: u8,
}

impl HidModifierKeys {
    /// Whether a modifier flag is a member of this mask.
    pub open spec fn spec_has(self, f: HidModifierKey) -> bool {
        self.bits & f.spec_bit() != 0
    }

    /// The mask decoded from a wire byte: exactly the flags whose bits are
    /// set, with unused patterns kept as opaque bits.
    pub open spec fn spec_from_byte(b: u8) -> HidModifierKeys {
        HidModifierKeys { bits: b }
    }

    /// The canonical byte encoding of this mask.
    pub open spec fn spec_to_byte(self) -> u8 {
        self.bits
    }

    /// The mask holding a single modifier flag.
    pub open spec fn spec_from_flag(f: HidModifierKey) -> HidModifierKeys {
        HidModifierKeys { bits: f.spec_bit() }
    }

    /// The native virtual keys of the set flags, in the fixed canonical
    /// flag-declaration order of the wire protocol: the authoritative bit
    /// order, left variants before right.
    pub open spec fn spec_virtual_keys(self) -> Seq<VirtualKey> {
        let s = Seq::<VirtualKey>::empty();
        let s = if self.spec_has(HidModifierKey::LCtrl) {
            s.push(VirtualKey::LControl)
        } else {
            s
        };
        let s = if self.spec_has(HidModifierKey::LShift) {
            s.push(VirtualKey::LShift)
        } else {
            s
        };
        let s = if self.spec_has(HidModifierKey::LAlt) {
            s.push(VirtualKey::LMenu)
        } else {
            s
        };
        let s = if self.spec_has(HidModifierKey::LMeta) {
            s.push(VirtualKey::LWin)
        } else {
            s
        };
        let s = if self.spec_has(HidModifierKey::RCtrl) {
            s.push(VirtualKey::RControl)
        } else {
            s
        };
        let s = if self.spec_has(HidModifierKey::RShift) {
            s.push(VirtualKey::RShift)
        } else {
            s
        };
        let s = if self.spec_has(HidModifierKey::RAlt) {
            s.push(VirtualKey::RMenu)
        } else {
            s
        };
        let s = if self.spec_has(HidModifierKey::RMeta) {
            s.push(VirtualKey::RWin)
        } else {
            s
        };
        s
    }

    /// The mask with no modifier held.
    pub fn empty() -> (r: Self)
        ensures
            r == Self::spec_from_byte(0),
            forall|f: HidModifierKey| !r.spec_has(f),
    {
        proof {
            assert forall|f: HidModifierKey| !Self::spec_from_byte(0).spec_has(f) by {
                lemma_byte_zero_test(f.spec_bit());
            }
        }
        HidModifierKeys { bits: 0 }
    }

    /// The mask holding exactly one modifier flag.
    pub fn from_flag(f: HidModifierKey) -> (r: Self)
        ensures
            r == Self::spec_from_flag(f),
            forall|g: HidModifierKey| #[trigger] r.spec_has(g) == (g == f),
    {
        proof {
            assert forall|g: HidModifierKey| #[trigger]
                Self::spec_from_flag(f).spec_has(g) == (g == f) by {
                lemma_mod_bit_single(f);
                lemma_mod_bit_single(g);
                lemma_byte_single_bits_eq(f.spec_bit(), g.spec_bit());
                if f.spec_bit() == g.spec_bit() {
                    lemma_mod_bit_injective(f, g);
                }
            }
        }
        HidModifierKeys { bits: f.bit() }
    }

    /// Decodes a wire byte into a mask; every byte value is valid, and
    /// unused patterns are preserved as opaque bits.
    pub fn from_byte(b: u8) -> (r: Self)
        ensures
            r == Self::spec_from_byte(b),
    {
        HidModifierKeys { bits: b }
    }

    /// The canonical byte encoding of this mask: the OR of the member bit
    /// values.
    pub fn to_byte(&self) -> (r: u8)
        ensures
            r == self.spec_to_byte(),
    {
        self.bits
    }

    /// Whether a modifier flag is a member of this mask.
    pub fn contains_flag(&self, f: HidModifierKey) -> (r: bool)
        ensures
            r == self.spec_has(f),
    {
        self.bits & f.bit() != 0
    }

    /// The union of two masks: a flag is a member exactly when it is a
    /// member of either operand.
    pub fn union(self, other: Self) -> (r: Self)
        ensures
            r.bits == (self.bits | other.bits),
            forall|f: HidModifierKey| (#[trigger] r.spec_has(f)) == (self.spec_has(f)
                || other.spec_has(f)),
    {
        let r = HidModifierKeys { bits: self.bits | other.bits };
        proof {
            assert forall|f: HidModifierKey| (#[trigger] r.spec_has(f)) == (self.spec_has(f)
                || other.spec_has(f)) by {
                lemma_byte_or_test(self.bits, other.bits, f.spec_bit());
            }
        }
        r
    }

    /// The intersection of two masks: a flag is a member exactly when it is
    /// a member of both operands.
    pub fn intersect(self, other: Self) -> (r: Self)
        ensures
            r.bits == (self.bits & other.bits),
            forall|f: HidModifierKey| (#[trigger] r.spec_has(f)) == (self.spec_has(f)
                && other.spec_has(f)),
    {
        let r = HidModifierKeys { bits: self.bits & other.bits };
        proof {
            assert forall|f: HidModifierKey| (#[trigger] r.spec_has(f)) == (self.spec_has(f)
                && other.spec_has(f)) by {
                lemma_mod_bit_single(f);
                lemma_byte_and_test(self.bits, other.bits, f.spec_bit());
            }
        }
        r
    }

    /// The difference of two masks: a flag is a member exactly when it is a
    /// member of the first operand and not of the second.
    pub fn difference(self, other: Self) -> (r: Self)
        ensures
            r.bits == (self.bits & !other.bits),
            forall|f: HidModifierKey| (#[trigger] r.spec_has(f)) == (self.spec_has(f)
                && !other.spec_has(f)),
    {
        let r = HidModifierKeys { bits: self.bits & !other.bits };
        proof {
            assert forall|f: HidModifierKey| (#[trigger] r.spec_has(f)) == (self.spec_has(f)
                && !other.spec_has(f)) by {
                lemma_mod_bit_single(f);
                lemma_byte_diff_test(self.bits, other.bits, f.spec_bit());
            }
        }
        r
    }

    /// Translates a native virtual key to the mask of the modifier it
    /// denotes; virtual keys that are not modifiers yield `None`.
    pub fn from_virtual_key(key: &VirtualKey) -> (r: Option<Self>)
        ensures
            r == match spec_vk_to_mod(*key) {
                Some(f) => Some(Self::spec_from_flag(f)),
                None => None,
            },
    {
        match key {
            VirtualKey::LShift => Some(HidModifierKeys { bits: 0x02 }),
            VirtualKey::LControl => Some(HidModifierKeys { bits: 0x01 }),
            VirtualKey::LWin => Some(HidModifierKeys { bits: 0x08 }),
            VirtualKey::LMenu => Some(HidModifierKeys { bits: 0x04 }),
            VirtualKey::RShift => Some(HidModifierKeys { bits: 0x20 }),
            VirtualKey::RControl => Some(HidModifierKeys { bits: 0x10 }),
            VirtualKey::RWin => Some(HidModifierKeys { bits: 0x80 }),
            VirtualKey::RMenu => Some(HidModifierKeys { bits: 0x40 }),
            _ => None,
        }
    }

    /// Enumerates, in the fixed canonical order, the native virtual keys of
    /// exactly the modifier flags set in this mask; a receiver uses the
    /// result to synthesize equivalent native key-down events.
    pub fn to_virtual_keys(&self) -> (r: Vec<VirtualKey>)
        ensures
            r@ == self.spec_virtual_keys(),
    {
        let mut v: Vec<VirtualKey> = Vec::new();
        if self.contains_flag(HidModifierKey::LCtrl) {
            v.push(VirtualKey::LControl);
        }
        if self.contains_flag(HidModifierKey::LShift) {
            v.push(VirtualKey::LShift);
        }
        if self.contains_flag(HidModifierKey::LAlt) {
            v.push(VirtualKey::LMenu);
        }
        if self.contains_flag(HidModifierKey::LMeta) {
            v.push(VirtualKey::LWin);
        }
        if self.contains_flag(HidModifierKey::RCtrl) {
            v.push(VirtualKey::RControl);
        }
        if self.contains_flag(HidModifierKey::RShift) {
            v.push(VirtualKey::RShift);
        }
        if self.contains_flag(HidModifierKey::RAlt) {
            v.push(VirtualKey::RMenu);
        }
        if self.contains_flag(HidModifierKey::RMeta) {
            v.push(VirtualKey::RWin);
        }
        v
    }

    /// Law: decoding a byte and encoding the result gives the byte back,
    /// for every byte value.
    pub proof fn lemma_encode_decode_roundtrip(b: u8)
        ensures
            Self::spec_from_byte(b).spec_to_byte() == b,
    {
    }

    /// Law: encoding a mask and decoding the result gives the mask back.
    pub proof fn lemma_decode_encode_roundtrip(m: Self)
        ensures
            Self::spec_from_byte(m.spec_to_byte()) == m,
    {
    }

    /// Law: the byte encoding is injective — distinct masks encode to
    /// distinct bytes.
    pub proof fn lemma_encode_injective(a: Self, b: Self)
        requires
            a.spec_to_byte() == b.spec_to_byte(),
        ensures
            a == b,
    {
    }

    /// Law: mask union is commutative, associative and idempotent.
    pub proof fn lemma_union_algebra(a: Self, b: Self, c: Self)
        ensures
            a.bits | b.bits == b.bits | a.bits,
            (a.bits | b.bits) | c.bits == a.bits | (b.bits | c.bits),
            a.bits | a.bits == a.bits,
    {
        lemma_byte_or_comm(a.bits, b.bits);
        lemma_byte_or_assoc(a.bits, b.bits, c.bits);
        lemma_byte_or_idem(a.bits);
    }

    /// Law: the enumeration of a mask holds the source key of a modifier
    /// flag exactly when that flag is set in the mask.
    pub proof fn lemma_virtual_keys_exact(m: Self, f: HidModifierKey)
        ensures
            m.spec_virtual_keys().contains(spec_modifier_source(f)) <==> m.spec_has(f),
    {
        broadcast use vstd::seq_lib::lemma_seq_contains_after_push;
        broadcast use vstd::seq_lib::lemma_seq_empty_contains_nothing;

    }

    /// Law: for every modifier flag, its single-flag mask enumerates
    /// exactly the one native virtual key that denotes the flag, and that
    /// key translates back to the flag.
    pub proof fn lemma_single_flag_roundtrip(f: HidModifierKey)
        ensures
            spec_vk_to_mod(spec_modifier_source(f)) == Some(f),
            Self::spec_from_flag(f).spec_virtual_keys() =~= seq![spec_modifier_source(f)],
    {
        let m = Self::spec_from_flag(f);
        assert forall|g: HidModifierKey| #[trigger] m.spec_has(g) == (g == f) by {
            lemma_mod_bit_single(f);
            lemma_mod_bit_single(g);
            lemma_byte_single_bits_eq(f.spec_bit(), g.spec_bit());
            if f.spec_bit() == g.spec_bit() {
                lemma_mod_bit_injective(f, g);
            }
        }
    }
}

/// The set of currently-pressed mouse buttons in canonical wire form: one
/// bit per button, encoded as a single byte.
#[derive(Clone, Copy, Debug, PartialEq, Eq, Hash, Structural)]
pub struct HidMouseButtons {
    pub bits: u8,
}

impl HidMouseButtons {
    /// Whether a mouse button is a member of this mask.
    pub open spec fn spec_has(self, b: HidMouseButton) -> bool {
        self.bits & b.spec_bit() != 0
    }

    /// The mask decoded from a wire byte: exactly the buttons whose bits
    /// are set, with unused patterns kept as opaque bits.
    pub open spec fn spec_from_byte(byte: u8) -> HidMouseButtons {
        HidMouseButtons { bits: byte }
    }

    /// The canonical byte encoding of this mask.
    pub open spec fn spec_to_byte(self) -> u8 {
        self.bits
    }

    /// The mask holding a single mouse button.
    pub open spec fn spec_from_flag(b: HidMouseButton) -> HidMouseButtons {
        HidMouseButtons { bits: b.spec_bit() }
    }

    /// The native virtual keys of the set buttons, in the fixed canonical
    /// enumeration order of the wire protocol.
    pub open spec fn spec_virtual_keys(self) -> Seq<VirtualKey> {
        let s = Seq::<VirtualKey>::empty();
        let s = if self.spec_has(HidMouseButton::LButton) {
            s.push(VirtualKey::LButton)
        } else {
            s
        };
        let s = if self.spec_has(HidMouseButton::RButton) {
            s.push(VirtualKey::RButton)
        } else {
            s
        };
        let s = if self.spec_has(HidMouseButton::MButton) {
            s.push(VirtualKey::MButton)
        } else {
            s
        };
        let s = if self.spec_has(HidMouseButton::Button4) {
            s.push(VirtualKey::XButton1)
        } else {
            s
        };
        let s = if self.spec_has(HidMouseButton::Button5) {
            s.push(VirtualKey::XButton2)
        } else {
            s
        };
        s
    }

    /// The mask with no button pressed.
    pub fn empty() -> (r: Self)
        ensures
            r == Self::spec_from_byte(0),
            forall|b: HidMouseButton| !r.spec_has(b),
    {
        proof {
            assert forall|b: HidMouseButton| !Self::spec_from_byte(0).spec_has(b) by {
                lemma_byte_zero_test(b.spec_bit());
            }
        }
        HidMouseButtons { bits: 0 }
    }

    /// The mask holding exactly one mouse button.
    pub fn from_flag(b: HidMouseButton) -> (r: Self)
        ensures
            r == Self::spec_from_flag(b),
            forall|c: HidMouseButton| (#[trigger] r.spec_has(c)) == (c == b),
    {
        proof {
            assert forall|c: HidMouseButton| (#[trigger] Self::spec_from_flag(b).spec_has(c)) == (c
                == b) by {
                lemma_mb_bit_single(b);
                lemma_mb_bit_single(c);
                lemma_byte_single_bits_eq(b.spec_bit(), c.spec_bit());
                if b.spec_bit() == c.spec_bit() {
                    lemma_mb_bit_injective(b, c);
                }
            }
        }
        HidMouseButtons { bits: b.bit() }
    }

    /// Decodes a wire byte into a mask; every byte value is valid, and
    /// unused patterns are preserved as opaque bits.
    pub fn from_byte(byte: u8) -> (r: Self)
        ensures
            r == Self::spec_from_byte(byte),
    {
        HidMouseButtons { bits: byte }
    }

    /// The canonical byte encoding of this mask: the OR of the member bit
    /// values.
    pub fn to_byte(&self) -> (r: u8)
        ensures
            r == self.spec_to_byte(),
    {
        self.bits
    }

    /// Whether a mouse button is a member of this mask.
    pub fn contains_flag(&self, b: HidMouseButton) -> (r: bool)
        ensures
            r == self.spec_has(b),
    {
        self.bits & b.bit() != 0
    }

    /// The union of two masks: a button is a member exactly when it is a
    /// member of either operand.
    pub fn union(self, other: Self) -> (r: Self)
        ensures
            r.bits == (self.bits | other.bits),
            forall|b: HidMouseButton| (#[trigger] r.spec_has(b)) == (self.spec_has(b)
                || other.spec_has(b)),
    {
        let r = HidMouseButtons { bits: self.bits | other.bits };
        proof {
            assert forall|b: HidMouseButton| (#[trigger] r.spec_has(b)) == (self.spec_has(b)
                || other.spec_has(b)) by {
                lemma_byte_or_test(self.bits, other.bits, b.spec_bit());
            }
        }
        r
    }

    /// The intersection of two masks: a button is a member exactly when it
    /// is a member of both operands.
    pub fn intersect(self, other: Self) -> (r: Self)
        ensures
            r.bits == (self.bits & other.bits),
            forall|b: HidMouseButton| (#[trigger] r.spec_has(b)) == (self.spec_has(b)
                && other.spec_has(b)),
    {
        let r = HidMouseButtons { bits: self.bits & other.bits };
        proof {
            assert forall|b: HidMouseButton| (#[trigger] r.spec_has(b)) == (self.spec_has(b)
                && other.spec_has(b)) by {
                lemma_mb_bit_single(b);
                lemma_byte_and_test(self.bits, other.bits, b.spec_bit());
            }
        }
        r
    }

    /// The difference of two masks: a button is a member exactly when it is
    /// a member of the first operand and not of the second.
    pub fn difference(self, other: Self) -> (r: Self)
        ensures
            r.bits == (self.bits & !other.bits),
            forall|b: HidMouseButton| (#[trigger] r.spec_has(b)) == (self.spec_has(b)
                && !other.spec_has(b)),
    {
        let r = HidMouseButtons { bits: self.bits & !other.bits };
        proof {
            assert forall|b: HidMouseButton| (#[trigger] r.spec_has(b)) == (self.spec_has(b)
                && !other.spec_has(b)) by {
                lemma_mb_bit_single(b);
                lemma_byte_diff_test(self.bits, other.bits, b.spec_bit());
            }
        }
        r
    }

    /// Translates a native virtual key to the mask of the mouse button it
    /// denotes; virtual keys that are not mouse buttons yield `None`.
    pub fn from_virtual_key(key: &VirtualKey) -> (r: Option<Self>)
        ensures
            r == match spec_vk_to_mb(*key) {
                Some(b) => Some(Self::spec_from_flag(b)),
                None => None,
            },
    {
        match key {
            VirtualKey::LButton => Some(HidMouseButtons { bits: 0x01 }),
            VirtualKey::RButton => Some(HidMouseButtons { bits: 0x02 }),
            VirtualKey::MButton => Some(HidMouseButtons { bits: 0x04 }),
            VirtualKey::XButton1 => Some(HidMouseButtons { bits: 0x08 }),
            VirtualKey::XButton2 => Some(HidMouseButtons { bits: 0x10 }),
            _ => None,
        }
    }

    /// Enumerates, in the fixed canonical order, the native virtual keys of
    /// exactly the mouse buttons set in this mask; a receiver uses the
    /// result to synthesize equivalent native button-down events.
    pub fn to_virtual_keys(&self) -> (r: Vec<VirtualKey>)
        ensures
            r@ == self.spec_virtual_keys(),
    {
        let mut v: Vec<VirtualKey> = Vec::new();
        if self.contains_flag(HidMouseButton::LButton) {
            v.push(VirtualKey::LButton);
        }
        if self.contains_flag(HidMouseButton::RButton) {
            v.push(VirtualKey::RButton);
        }
        if self.contains_flag(HidMouseButton::MButton) {
            v.push(VirtualKey::MButton);
        }
        if self.contains_flag(HidMouseButton::Button4) {
            v.push(VirtualKey::XButton1);
        }
        if self.contains_flag(HidMouseButton::Button5) {
            v.push(VirtualKey::XButton2);
        }
        v
    }

    /// Law: decoding a byte and encoding the result gives the byte back,
    /// for every byte value.
    pub proof fn lemma_encode_decode_roundtrip(byte: u8)
        ensures
            Self::spec_from_byte(byte).spec_to_byte() == byte,
    {
    }

    /// Law: encoding a mask and decoding the result gives the mask back.
    pub proof fn lemma_decode_encode_roundtrip(m: Self)
        ensures
            Self::spec_from_byte(m.spec_to_byte()) == m,
    {
    }

    /// Law: the byte encoding is injective — distinct masks encode to
    /// distinct bytes.
    pub proof fn lemma_encode_injective(a: Self, b: Self)
        requires
            a.spec_to_byte() == b.spec_to_byte(),
        ensures
            a == b,
    {
    }

    /// Law: mask union is commutative, associative and idempotent.
    pub proof fn lemma_union_algebra(a: Self, b: Self, c: Self)
        ensures
            a.bits | b.bits == b.bits | a.bits,
            (a.bits | b.bits) | c.bits == a.bits | (b.bits | c.bits),
            a.bits | a.bits == a.bits,
    {
        lemma_byte_or_comm(a.bits, b.bits);
        lemma_byte_or_assoc(a.bits, b.bits, c.bits);
        lemma_byte_or_idem(a.bits);
    }

    /// Law: the enumeration of a mask holds the source key of a mouse
    /// button exactly when that button is set in the mask.
    pub proof fn lemma_virtual_keys_exact(m: Self, b: HidMouseButton)
        ensures
            m.spec_virtual_keys().contains(spec_button_source(b)) <==> m.spec_has(b),
    {
        broadcast use vstd::seq_lib::lemma_seq_contains_after_push;
        broadcast use vstd::seq_lib::lemma_seq_empty_contains_nothing;

    }

    /// Law: for every mouse button, its single-button mask enumerates
    /// exactly the one native virtual key that denotes the button, and that
    /// key translates back to the button.
    pub proof fn lemma_single_flag_roundtrip(b: HidMouseButton)
        ensures
            spec_vk_to_mb(spec_button_source(b)) == Some(b),
            Self::spec_from_flag(b).spec_virtual_keys() =~= seq![spec_button_source(b)],
    {
        let m = Self::spec_from_flag(b);
        assert forall|c: HidMouseButton| (#[trigger] m.spec_has(c)) == (c == b) by {
            lemma_mb_bit_single(b);
            lemma_mb_bit_single(c);
            lemma_byte_single_bits_eq(b.spec_bit(), c.spec_bit());
            if b.spec_bit() == c.spec_bit() {
                lemma_mb_bit_injective(b, c);
            }
        }
    }
}

} // verus!
