use vstd::prelude::*;

verus! {

/// The highest compression level a compressor can be built with.
pub const MAX_LEVEL: u8 = 10;

/// Why a compressor could not be built, found, or could not decode a block.
#[derive(Clone, Copy, Debug, PartialEq, Eq, Structural)]
pub enum CodecError {
    /// The bytes handed to `decode` are not a valid stream for the compressor.
    CorruptBlock,
    /// No compressor is registered under this identifier.
    UnknownCompressor(u8),
    /// A compressor was asked for with this level, which is above `MAX_LEVEL`.
    InvalidLevel(u8),
}

/// The character of the decimal digit `d`.
pub open spec fn digit(d: nat) -> char {
    if d == 0 {
        '0'
    } else if d == 1 {
        '1'
    } else if d == 2 {
        '2'
    } else if d == 3 {
        '3'
    } else if d == 4 {
        '4'
    } else if d == 5 {
        '5'
    } else if d == 6 {
        '6'
    } else if d == 7 {
        '7'
    } else if d == 8 {
        '8'
    } else {
        '9'
    }
}

/// `n` in decimal, without leading zeros.
pub open spec fn decimal(n: nat) -> Seq<char>
    decreases n,
{
    if n < 10 {
        seq![digit(n)]
    } else {
        decimal(n / 10).push(digit(n % 10))
    }
}

fn digit_str(d: u8) -> (out: &'static str)
    requires
        d < 10,
    ensures
        out@ == seq![digit(d as nat)],
{
    proof {
        reveal_strlit("0");
        reveal_strlit("1");
        reveal_strlit("2");
        reveal_strlit("3");
        reveal_strlit("4");
        reveal_strlit("5");
        reveal_strlit("6");
        reveal_strlit("7");
        reveal_strlit("8");
        reveal_strlit("9");
    }
    let out = match d {
        0 => "0",
        1 => "1",
        2 => "2",
        3 => "3",
        4 => "4",
        5 => "5",
        6 => "6",
        7 => "7",
        8 => "8",
        _ => "9",
    };
    assert(out@ =~= seq![digit(d as nat)]);
    out
}

fn decimal_string(n: u8) -> (out: String)
    ensures
        out@ == decimal(n as nat),
{
    let mut out = String::new();
    if n >= 100 {
        out.append(digit_str(n / 100));
    }
    if n >= 10 {
        out.append(digit_str((n / 10) % 10));
    }
    out.append(digit_str(n % 10));
    proof {
        let v = n as nat;
        if v >= 100 {
            assert((v / 10) / 10 == v / 100 && v / 100 < 10);
            assert(decimal(v / 100) =~= seq![digit(v / 100)]);
            assert(decimal(v / 10) =~= decimal(v / 100).push(digit((v / 10) % 10)));
            assert(decimal(v) =~= decimal(v / 10).push(digit(v % 10)));
        } else if v >= 10 {
            assert((v / 10) % 10 == v / 10);
            assert(decimal(v / 10) =~= seq![digit(v / 10)]);
            assert(decimal(v) =~= decimal(v / 10).push(digit(v % 10)));
        }
        assert(out@ =~= decimal(v));
    }
    out
}

impl CodecError {
    /// The text of `message`: what went wrong, with the identifier or the
    /// level that was refused.
    pub open spec fn message_text(self) -> Seq<char> {
        match self {
            CodecError::CorruptBlock => "corrupt block"@,
            CodecError::UnknownCompressor(identifier) => "unknown compressor identifier "@
                + decimal(identifier as nat),
            CodecError::InvalidLevel(level) => "invalid compression level "@ + decimal(
                level as nat,
            ),
        }
    }

    /// A line for whoever reads the failure.
    pub fn message(&self) -> (out: String)
        ensures
            out@ == self.message_text(),
    {
        match self {
            CodecError::CorruptBlock => String::from_str("corrupt block"),
            CodecError::UnknownCompressor(identifier) => {
                let number = decimal_string(*identifier);
                String::from_str("unknown compressor identifier ").concat(number.as_str())
            },
            CodecError::InvalidLevel(level) => {
                let number = decimal_string(*level);
                String::from_str("invalid compression level ").concat(number.as_str())
            },
        }
    }
}

} // verus!
