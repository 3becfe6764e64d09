use vstd::prelude::*;

verus! {

/// A command or pixel-data payload: the tagged union of shapes the
/// adaptation layer accepts. Byte shapes widen each element to a 16-bit
/// bus word by zero-extension; word shapes pass through verbatim — the
/// endianness tags record the caller's intent, and the values are expected
/// to already be in bus order, so the adapter never reorders bytes.
/// Buffer and sequence shapes differ only in how a caller produces them;
/// both are consumed exactly once, in order. `Unsupported` stands for any
/// payload shape with no defined mapping onto a 16-bit bus word (for
/// example a packed sub-byte format).
#[derive(Debug)]
pub enum DataFormat {
    /// Buffer of unsigned bytes.
    U8(Vec<u8>),
    /// Sequence of unsigned bytes.
    U8Iter(Vec<u8>),
    /// Buffer of 16-bit words in native order.
    U16(Vec<u16>),
    /// Buffer of 16-bit words meant in big-endian byte order.
    U16BE(Vec<u16>),
    /// Buffer of 16-bit words meant in little-endian byte order.
    U16LE(Vec<u16>),
    /// Sequence of 16-bit words meant in big-endian byte order.
    U16BEIter(Vec<u16>),
    /// Sequence of 16-bit words meant in little-endian byte order.
    U16LEIter(Vec<u16>),
    /// A payload shape with no defined mapping onto 16-bit bus words.
    Unsupported,
}

/// Whether a payload shape has a defined mapping onto 16-bit bus words.
pub open spec fn supported(data: DataFormat) -> bool {
    !(data is Unsupported)
}

/// Each byte zero-extended to a 16-bit word, order preserved.
pub open spec fn widened(bytes: Seq<u8>) -> Seq<u16> {
    bytes.map_values(|b: u8| b as u16)
}

/// The bus words a supported payload normalizes to, in payload order:
/// bytes are zero-extended, words pass through verbatim. An unsupported
/// shape normalizes to nothing.
pub open spec fn format_words(data: DataFormat) -> Seq<u16> {
    match data {
        DataFormat::U8(v) => widened(v@),
        DataFormat::U8Iter(v) => widened(v@),
        DataFormat::U16(v) => v@,
        DataFormat::U16BE(v) => v@,
        DataFormat::U16LE(v) => v@,
        DataFormat::U16BEIter(v) => v@,
        DataFormat::U16LEIter(v) => v@,
        DataFormat::Unsupported => Seq::empty(),
    }
}

/// Zero-extend each byte to a 16-bit bus word, preserving order. An 8-bit
/// source value is widened by zero-extension, never sign-extension.
pub fn widen_bytes(bytes: &[u8]) -> (words: Vec<u16>)
    ensures
        words@ == widened(bytes@),
{
    let mut words: Vec<u16> = Vec::new();
    let mut i: usize = 0;
    while i < bytes.len()
        invariant
            i <= bytes@.len(),
            words@ == widened(bytes@.take(i as int)),
        decreases bytes@.len() - i,
    {
        words.push(bytes[i] as u16);
        i = i + 1;
        proof {
            assert(words@ =~= widened(bytes@.take(i as int)));
        }
    }
    proof {
        assert(bytes@.take(i as int) =~= bytes@);
    }
    words
}

} // verus!
