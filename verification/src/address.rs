//! Identifiers of peripherals and of the GATT attributes they expose.

use vstd::prelude::*;

verus! {

/// The 48-bit hardware address of a peripheral, most significant octet first.
///
/// An address is the key under which a device is known; two addresses are
/// equal exactly when all six octets are.
#[derive(Clone, Copy, Debug, PartialEq, Eq, Hash, Structural)]
pub struct DeviceAddress {
    pub b0: u8,
    pub b1: u8,
    pub b2: u8,
    pub b3: u8,
    pub b4: u8,
    pub b5: u8,
}

/// The sixteen hexadecimal digits, in upper case.
pub open spec fn upper_hex() -> Seq<char> {
    "0123456789ABCDEF"@
}

/// An octet as two hexadecimal digits.
pub open spec fn octet_text(octet: u8) -> Seq<char> {
    seq![upper_hex()[octet as int / 16], upper_hex()[octet as int % 16]]
}

/// Appends an octet as two hexadecimal digits.
fn push_octet(text: &mut String, octet: u8)
    ensures
        final(text)@ == old(text)@ + octet_text(octet),
{
    let digits = "0123456789ABCDEF";
    let high: usize = (octet / 16) as usize;
    let low: usize = (octet % 16) as usize;
    proof {
        reveal_strlit("0123456789ABCDEF");
    }
    let ghost before = text@;
    text.append(digits.substring_ascii(high, high + 1));
    text.append(digits.substring_ascii(low, low + 1));
    assert(text@ =~= before + octet_text(octet));
}

impl DeviceAddress {
    /// The address as it is written: six octets as two upper-case
    /// hexadecimal digits each, with colons between them.
    pub open spec fn spec_name(self) -> Seq<char> {
        octet_text(self.b0) + seq![':'] + octet_text(self.b1) + seq![':'] + octet_text(self.b2)
            + seq![':'] + octet_text(self.b3) + seq![':'] + octet_text(self.b4) + seq![':']
            + octet_text(self.b5)
    }

    /// The address as it is written, such as `A4:C1:38:EC:91:32`.
    pub fn name(&self) -> (text: String)
        ensures
            text@ == self.spec_name(),
    {
        proof {
            reveal_strlit(":");
        }
        let mut text = String::new();
        push_octet(&mut text, self.b0);
        text.append(":");
        push_octet(&mut text, self.b1);
        text.append(":");
        push_octet(&mut text, self.b2);
        text.append(":");
        push_octet(&mut text, self.b3);
        text.append(":");
        push_octet(&mut text, self.b4);
        text.append(":");
        push_octet(&mut text, self.b5);
        assert(":"@ =~= seq![':']);
        assert(text@ =~= self.spec_name());
        text
    }

    /// The six octets in transmission order.
    pub open spec fn spec_octets(self) -> Seq<u8> {
        seq![self.b0, self.b1, self.b2, self.b3, self.b4, self.b5]
    }

    /// Builds the address whose octets are `octets`.
    pub fn new(octets: [u8; 6]) -> (addr: DeviceAddress)
        ensures
            addr.spec_octets() == octets@,
    {
        let addr = DeviceAddress {
            b0: octets[0],
            b1: octets[1],
            b2: octets[2],
            b3: octets[3],
            b4: octets[4],
            b5: octets[5],
        };
        assert(addr.spec_octets() =~= octets@);
        addr
    }

    /// The six octets of the address.
    pub fn octets(&self) -> (octets: [u8; 6])
        ensures
            octets@ == self.spec_octets(),
    {
        let octets = [self.b0, self.b1, self.b2, self.b3, self.b4, self.b5];
        assert(octets@ =~= self.spec_octets());
        octets
    }
}

/// A 128-bit identifier naming a GATT service or characteristic.
#[derive(Clone, Copy, Debug, PartialEq, Eq, Hash, Structural)]
pub struct Uuid {
    pub value: u128,
}

impl Uuid {
    /// The identifier with the given 128-bit value.
    pub fn new(value: u128) -> (uuid: Uuid)
        ensures
            uuid.value == value,
    {
        Uuid { value }
    }

    /// The 128-bit value of the identifier.
    pub fn as_u128(&self) -> (value: u128)
        ensures
            value == self.value,
    {
        self.value
    }
}

} // verus!
