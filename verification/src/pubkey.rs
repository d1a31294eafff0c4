use vstd::prelude::*;
use vstd::std_specs::cmp::PartialEqSpecImpl;

verus! {

/// Number of bytes in an account address.
pub const PUBKEY_BYTES: usize = 32;

/// The address of an account: 32 bytes that the ledger treats as opaque.
#[derive(Clone, Copy, Debug)]
pub struct Pubkey {
    pub bytes: [u8; 32],
}

impl View for Pubkey {
    type V = Seq<u8>;

    open spec fn view(&self) -> Seq<u8> {
        self.bytes@
    }
}

impl PartialEq for Pubkey {
    fn eq(&self, other: &Pubkey) -> (same: bool) {
        let mut i: usize = 0;
        while i < 32
            invariant
                i <= 32,
                self.bytes@.take(i as int) == other.bytes@.take(i as int),
            decreases 32 - i,
        {
            if self.bytes[i] != other.bytes[i] {
                return false;
            }
            assert(self.bytes@.take(i + 1) == self.bytes@.take(i as int).push(self.bytes@[i as int]));
            assert(other.bytes@.take(i + 1) == other.bytes@.take(i as int).push(other.bytes@[i as int]));
            i = i + 1;
        }
        assert(self.bytes@.take(32) == self.bytes@);
        assert(other.bytes@.take(32) == other.bytes@);
        assert(self.bytes =~= other.bytes);
        true
    }
}

impl PartialEqSpecImpl for Pubkey {
    open spec fn obeys_eq_spec() -> bool {
        true
    }

    open spec fn eq_spec(&self, other: &Pubkey) -> bool {
        *self == *other
    }
}

impl Eq for Pubkey {

}

impl Default for Pubkey {
    /// The address whose bytes are all zero.
    fn default() -> (key: Pubkey)
        ensures
            key == system_program(),
    {
        Pubkey { bytes: SYSTEM_PROGRAM_ID }
    }
}

impl Pubkey {
    /// The bytes of the address, as a vector.
    pub fn to_vec(&self) -> (bytes: Vec<u8>)
        ensures
            bytes@ == self@,
    {
        let mut out: Vec<u8> = Vec::new();
        let mut i: usize = 0;
        while i < 32
            invariant
                i <= 32,
                out@ == self@.take(i as int),
            decreases 32 - i,
        {
            out.push(self.bytes[i]);
            i = i + 1;
        }
        out
    }
}

/// Two addresses with the same bytes are the same address.
pub proof fn lemma_pubkey_by_bytes(a: Pubkey, b: Pubkey)
    ensures
        (a@ == b@) <==> (a == b),
{
    if a@ == b@ {
        assert(a.bytes =~= b.bytes);
    }
}

/// The bytes of the address of the system program, which moves the native
/// currency and creates accounts.
pub const SYSTEM_PROGRAM_ID: [u8; 32] = [
    0, 0, 0, 0, 0, 0, 0, 0, 0, 0, 0, 0, 0, 0, 0, 0,
    0, 0, 0, 0, 0, 0, 0, 0, 0, 0, 0, 0, 0, 0, 0, 0,
];

/// The bytes of the address of the token program.
pub const TOKEN_PROGRAM_ID: [u8; 32] = [
    6, 221, 246, 225, 215, 101, 161, 147, 217, 203, 225, 70, 206, 235, 121, 172,
    28, 180, 133, 237, 95, 91, 55, 145, 58, 140, 245, 133, 126, 255, 0, 169,
];

/// The bytes of the address of the token metadata program.
pub const TOKEN_METADATA_PROGRAM_ID: [u8; 32] = [
    11, 112, 101, 177, 227, 209, 124, 69, 56, 157, 82, 127, 107, 4, 195, 205,
    88, 184, 108, 115, 26, 160, 253, 181, 73, 182, 209, 188, 3, 248, 41, 70,
];

/// The bytes of the address under which the ledger keeps its rent rules.
pub const RENT_SYSVAR_ID: [u8; 32] = [
    6, 167, 213, 23, 25, 44, 92, 81, 33, 140, 201, 76, 61, 74, 241, 127,
    88, 218, 238, 8, 155, 161, 253, 68, 227, 219, 217, 138, 0, 0, 0, 0,
];

/// The bytes of the address under which the ledger keeps its clock.
pub const CLOCK_SYSVAR_ID: [u8; 32] = [
    6, 167, 213, 23, 24, 199, 116, 201, 40, 86, 99, 152, 105, 29, 94, 182,
    139, 94, 184, 163, 155, 75, 109, 92, 115, 85, 91, 33, 0, 0, 0, 0,
];

/// The address under which the ledger keeps its rent rules.
pub open spec fn rent_sysvar() -> Pubkey {
    Pubkey { bytes: RENT_SYSVAR_ID }
}

/// The address under which the ledger keeps its clock.
pub open spec fn clock_sysvar() -> Pubkey {
    Pubkey { bytes: CLOCK_SYSVAR_ID }
}

/// The address under which the ledger keeps its rent rules.
pub fn rent_sysvar_id() -> (key: Pubkey)
    ensures
        key == rent_sysvar(),
{
    Pubkey { bytes: RENT_SYSVAR_ID }
}

/// The address under which the ledger keeps its clock.
pub fn clock_sysvar_id() -> (key: Pubkey)
    ensures
        key == clock_sysvar(),
{
    Pubkey { bytes: CLOCK_SYSVAR_ID }
}

/// The address of the system program.
pub open spec fn system_program() -> Pubkey {
    Pubkey { bytes: SYSTEM_PROGRAM_ID }
}

/// The address of the token program.
pub open spec fn token_program() -> Pubkey {
    Pubkey { bytes: TOKEN_PROGRAM_ID }
}

/// The address of the token metadata program.
pub open spec fn token_metadata_program() -> Pubkey {
    Pubkey { bytes: TOKEN_METADATA_PROGRAM_ID }
}

/// The address of the system program.
pub fn system_program_id() -> (key: Pubkey)
    ensures
        key == system_program(),
{
    Pubkey { bytes: SYSTEM_PROGRAM_ID }
}

/// The address of the token program.
pub fn token_program_id() -> (key: Pubkey)
    ensures
        key == token_program(),
{
    Pubkey { bytes: TOKEN_PROGRAM_ID }
}

/// The address of the token metadata program.
pub fn token_metadata_program_id() -> (key: Pubkey)
    ensures
        key == token_metadata_program(),
{
    Pubkey { bytes: TOKEN_METADATA_PROGRAM_ID }
}

} // verus!
