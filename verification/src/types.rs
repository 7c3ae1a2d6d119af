//! Fixed-width byte containers exchanged with the host.

use vstd::prelude::*;

verus! {

/// The all-zero byte sequence of the given width.
pub open spec fn zeroed(width: nat) -> Seq<u8> {
    Seq::new(width, |i: int| 0u8)
}

/// A little-endian unsigned 128-bit integer.
#[derive(Copy, Clone, Debug, PartialEq, Eq)]
pub struct Uint128 {
    pub bytes: [u8; 16],
}

/// A little-endian unsigned 256-bit integer.
#[derive(Copy, Clone, Debug, PartialEq, Eq)]
pub struct Uint256 {
    pub bytes: [u8; 32],
}

/// An array of 160 bits.
#[derive(Copy, Clone, Debug, PartialEq, Eq)]
pub struct Bytes20 {
    pub bytes: [u8; 20],
}

/// An array of 256 bits.
#[derive(Copy, Clone, Debug, PartialEq, Eq)]
pub struct Bytes32 {
    pub bytes: [u8; 32],
}

/// An amount of ether.
pub type EtherValue = Uint128;

/// An account address.
pub type Address = Bytes20;

/// A key into contract storage.
pub type StorageKey = Bytes32;

/// A value held in contract storage.
pub type StorageValue = Bytes32;

/// A log topic.
pub type Topic = Bytes32;

/// A block hash.
pub type Hash = Bytes32;

/// A block difficulty.
pub type Difficulty = Uint256;

impl View for Uint128 {
    type V = Seq<u8>;

    open spec fn view(&self) -> Seq<u8> {
        self.bytes@
    }
}

impl View for Uint256 {
    type V = Seq<u8>;

    open spec fn view(&self) -> Seq<u8> {
        self.bytes@
    }
}

impl View for Bytes20 {
    type V = Seq<u8>;

    open spec fn view(&self) -> Seq<u8> {
        self.bytes@
    }
}

impl View for Bytes32 {
    type V = Seq<u8>;

    open spec fn view(&self) -> Seq<u8> {
        self.bytes@
    }
}

impl Default for Uint128 {
    /// Sixteen zero bytes.
    fn default() -> (value: Self)
        ensures
            value@ == zeroed(16),
    {
        let value = Uint128 { bytes: [0u8; 16] };
        assert(value@ =~= zeroed(16));
        value
    }
}

impl Default for Uint256 {
    /// Thirty-two zero bytes.
    fn default() -> (value: Self)
        ensures
            value@ == zeroed(32),
    {
        let value = Uint256 { bytes: [0u8; 32] };
        assert(value@ =~= zeroed(32));
        value
    }
}

impl Default for Bytes20 {
    /// Twenty zero bytes.
    fn default() -> (value: Self)
        ensures
            value@ == zeroed(20),
    {
        let value = Bytes20 { bytes: [0u8; 20] };
        assert(value@ =~= zeroed(20));
        value
    }
}

impl Default for Bytes32 {
    /// Thirty-two zero bytes.
    fn default() -> (value: Self)
        ensures
            value@ == zeroed(32),
    {
        let value = Bytes32 { bytes: [0u8; 32] };
        assert(value@ =~= zeroed(32));
        value
    }
}

} // verus!
