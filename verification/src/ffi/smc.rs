//! The key/value protocol of the embedded sensor controller: key codes, the
//! request record, the decoding of a payload by its type tag, and the fold of
//! the known keys into one reading.
use crate::milli::{
    clamp_magnitude, f32_is_finite, lemma_scaled_is_nearest, scaled_thousandths, Dyadic,
    MIN_EXPONENT,
};
use vstd::arithmetic::power2::{
    lemma2_to64, lemma_pow2_pos, lemma_pow2_strictly_increases, pow2,
};
use crate::util::{bytes_equal, trim_bytes, trimmed};
use std::collections::HashMap;
use vstd::array::{array_fill_for_copy_types, spec_array_fill_for_copy_type};
use vstd::prelude::*;
use vstd::string::*;

verus! {

broadcast use vstd::std_specs::hash::group_hash_axioms;

/// The selector of the controller among the kernel's services.
pub const KERNEL_INDEX_SMC: i32 = 2;

/// The command that reads the payload of a key.
pub const CMD_READ_BYTES: u8 = 5;

/// The command that writes the payload of a key.
pub const CMD_WRITE_BYTES: u8 = 6;

/// The command that reads the metadata of a key.
pub const CMD_READ_KEYINFO: u8 = 9;

/// The status with which the channel reports success.
pub const KERN_SUCCESS: i32 = 0;

/// The status of a write whose payload has the wrong size for its key.
pub const KERN_INVALID_ARGUMENT: i32 = 4;

/// The number of sensor keys that one reading is made of.
pub const SENSOR_COUNT: usize = 11;

/// The bytes of a code written as text.
pub open spec fn code(text: &str) -> Seq<u8> {
    text.spec_bytes()
}

/// The sensor keys, in the order in which they are read.
pub open spec fn sensor_keys() -> Seq<Seq<u8>> {
    seq![
        code("PPBR"),
        code("PDTR"),
        code("PSTR"),
        code("PHPC"),
        code("PDBR"),
        code("B0FC"),
        code("SBAR"),
        code("CHCC"),
        code("B0TE"),
        code("B0TF"),
        code("TB0T"),
    ]
}

/// The bytes of the sensor keys: their letters in ASCII.
pub proof fn lemma_sensor_key_bytes()
    ensures
        code("PPBR") == seq![0x50u8, 0x50u8, 0x42u8, 0x52u8],
        code("PDTR") == seq![0x50u8, 0x44u8, 0x54u8, 0x52u8],
        code("PSTR") == seq![0x50u8, 0x53u8, 0x54u8, 0x52u8],
        code("PHPC") == seq![0x50u8, 0x48u8, 0x50u8, 0x43u8],
        code("PDBR") == seq![0x50u8, 0x44u8, 0x42u8, 0x52u8],
        code("B0FC") == seq![0x42u8, 0x30u8, 0x46u8, 0x43u8],
        code("SBAR") == seq![0x53u8, 0x42u8, 0x41u8, 0x52u8],
        code("CHCC") == seq![0x43u8, 0x48u8, 0x43u8, 0x43u8],
        code("B0TE") == seq![0x42u8, 0x30u8, 0x54u8, 0x45u8],
        code("B0TF") == seq![0x42u8, 0x30u8, 0x54u8, 0x46u8],
        code("TB0T") == seq![0x54u8, 0x42u8, 0x30u8, 0x54u8],
{
    broadcast use vstd::string::is_ascii_spec_bytes;

    assert(code("PPBR") == seq![0x50u8, 0x50u8, 0x42u8, 0x52u8]) by {
        reveal_strlit("PPBR");
        assert(is_ascii("PPBR"));
        assert(code("PPBR") =~= seq![0x50u8, 0x50u8, 0x42u8, 0x52u8]);
    }
    assert(code("PDTR") == seq![0x50u8, 0x44u8, 0x54u8, 0x52u8]) by {
        reveal_strlit("PDTR");
        assert(is_ascii("PDTR"));
        assert(code("PDTR") =~= seq![0x50u8, 0x44u8, 0x54u8, 0x52u8]);
    }
    assert(code("PSTR") == seq![0x50u8, 0x53u8, 0x54u8, 0x52u8]) by {
        reveal_strlit("PSTR");
        assert(is_ascii("PSTR"));
        assert(code("PSTR") =~= seq![0x50u8, 0x53u8, 0x54u8, 0x52u8]);
    }
    assert(code("PHPC") == seq![0x50u8, 0x48u8, 0x50u8, 0x43u8]) by {
        reveal_strlit("PHPC");
        assert(is_ascii("PHPC"));
        assert(code("PHPC") =~= seq![0x50u8, 0x48u8, 0x50u8, 0x43u8]);
    }
    assert(code("PDBR") == seq![0x50u8, 0x44u8, 0x42u8, 0x52u8]) by {
        reveal_strlit("PDBR");
        assert(is_ascii("PDBR"));
        assert(code("PDBR") =~= seq![0x50u8, 0x44u8, 0x42u8, 0x52u8]);
    }
    assert(code("B0FC") == seq![0x42u8, 0x30u8, 0x46u8, 0x43u8]) by {
        reveal_strlit("B0FC");
        assert(is_ascii("B0FC"));
        assert(code("B0FC") =~= seq![0x42u8, 0x30u8, 0x46u8, 0x43u8]);
    }
    assert(code("SBAR") == seq![0x53u8, 0x42u8, 0x41u8, 0x52u8]) by {
        reveal_strlit("SBAR");
        assert(is_ascii("SBAR"));
        assert(code("SBAR") =~= seq![0x53u8, 0x42u8, 0x41u8, 0x52u8]);
    }
    assert(code("CHCC") == seq![0x43u8, 0x48u8, 0x43u8, 0x43u8]) by {
        reveal_strlit("CHCC");
        assert(is_ascii("CHCC"));
        assert(code("CHCC") =~= seq![0x43u8, 0x48u8, 0x43u8, 0x43u8]);
    }
    assert(code("B0TE") == seq![0x42u8, 0x30u8, 0x54u8, 0x45u8]) by {
        reveal_strlit("B0TE");
        assert(is_ascii("B0TE"));
        assert(code("B0TE") =~= seq![0x42u8, 0x30u8, 0x54u8, 0x45u8]);
    }
    assert(code("B0TF") == seq![0x42u8, 0x30u8, 0x54u8, 0x46u8]) by {
        reveal_strlit("B0TF");
        assert(is_ascii("B0TF"));
        assert(code("B0TF") =~= seq![0x42u8, 0x30u8, 0x54u8, 0x46u8]);
    }
    assert(code("TB0T") == seq![0x54u8, 0x42u8, 0x30u8, 0x54u8]) by {
        reveal_strlit("TB0T");
        assert(is_ascii("TB0T"));
        assert(code("TB0T") =~= seq![0x54u8, 0x42u8, 0x30u8, 0x54u8]);
    }
}

/// The bytes of the type tags: their characters in ASCII.
pub proof fn lemma_type_tag_bytes()
    ensures
        code("ch8*") == seq![0x63u8, 0x68u8, 0x38u8, 0x2au8],
        code("{fds") == seq![0x7bu8, 0x66u8, 0x64u8, 0x73u8],
        code("flag") == seq![0x66u8, 0x6cu8, 0x61u8, 0x67u8],
        code("flt") == seq![0x66u8, 0x6cu8, 0x74u8],
        code("fp2e") == seq![0x66u8, 0x70u8, 0x32u8, 0x65u8],
        code("fp4c") == seq![0x66u8, 0x70u8, 0x34u8, 0x63u8],
        code("fp5b") == seq![0x66u8, 0x70u8, 0x35u8, 0x62u8],
        code("fp88") == seq![0x66u8, 0x70u8, 0x38u8, 0x38u8],
        code("fpe2") == seq![0x66u8, 0x70u8, 0x65u8, 0x32u8],
        code("si16") == seq![0x73u8, 0x69u8, 0x31u8, 0x36u8],
        code("si32") == seq![0x73u8, 0x69u8, 0x33u8, 0x32u8],
        code("si8") == seq![0x73u8, 0x69u8, 0x38u8],
        code("sp4b") == seq![0x73u8, 0x70u8, 0x34u8, 0x62u8],
        code("sp78") == seq![0x73u8, 0x70u8, 0x37u8, 0x38u8],
        code("ui16") == seq![0x75u8, 0x69u8, 0x31u8, 0x36u8],
        code("ui32") == seq![0x75u8, 0x69u8, 0x33u8, 0x32u8],
        code("ui8") == seq![0x75u8, 0x69u8, 0x38u8],
        code("ioft") == seq![0x69u8, 0x6fu8, 0x66u8, 0x74u8],
        code("_hex") == seq![0x5fu8, 0x68u8, 0x65u8, 0x78u8],
{
    broadcast use vstd::string::is_ascii_spec_bytes;

    assert(code("ch8*") == seq![0x63u8, 0x68u8, 0x38u8, 0x2au8]) by {
        reveal_strlit("ch8*");
        assert(is_ascii("ch8*"));
        assert(code("ch8*") =~= seq![0x63u8, 0x68u8, 0x38u8, 0x2au8]);
    }
    assert(code("{fds") == seq![0x7bu8, 0x66u8, 0x64u8, 0x73u8]) by {
        reveal_strlit("{fds");
        assert(is_ascii("{fds"));
        assert(code("{fds") =~= seq![0x7bu8, 0x66u8, 0x64u8, 0x73u8]);
    }
    assert(code("flag") == seq![0x66u8, 0x6cu8, 0x61u8, 0x67u8]) by {
        reveal_strlit("flag");
        assert(is_ascii("flag"));
        assert(code("flag") =~= seq![0x66u8, 0x6cu8, 0x61u8, 0x67u8]);
    }
    assert(code("flt") == seq![0x66u8, 0x6cu8, 0x74u8]) by {
        reveal_strlit("flt");
        assert(is_ascii("flt"));
        assert(code("flt") =~= seq![0x66u8, 0x6cu8, 0x74u8]);
    }
    assert(code("fp2e") == seq![0x66u8, 0x70u8, 0x32u8, 0x65u8]) by {
        reveal_strlit("fp2e");
        assert(is_ascii("fp2e"));
        assert(code("fp2e") =~= seq![0x66u8, 0x70u8, 0x32u8, 0x65u8]);
    }
    assert(code("fp4c") == seq![0x66u8, 0x70u8, 0x34u8, 0x63u8]) by {
        reveal_strlit("fp4c");
        assert(is_ascii("fp4c"));
        assert(code("fp4c") =~= seq![0x66u8, 0x70u8, 0x34u8, 0x63u8]);
    }
    assert(code("fp5b") == seq![0x66u8, 0x70u8, 0x35u8, 0x62u8]) by {
        reveal_strlit("fp5b");
        assert(is_ascii("fp5b"));
        assert(code("fp5b") =~= seq![0x66u8, 0x70u8, 0x35u8, 0x62u8]);
    }
    assert(code("fp88") == seq![0x66u8, 0x70u8, 0x38u8, 0x38u8]) by {
        reveal_strlit("fp88");
        assert(is_ascii("fp88"));
        assert(code("fp88") =~= seq![0x66u8, 0x70u8, 0x38u8, 0x38u8]);
    }
    assert(code("fpe2") == seq![0x66u8, 0x70u8, 0x65u8, 0x32u8]) by {
        reveal_strlit("fpe2");
        assert(is_ascii("fpe2"));
        assert(code("fpe2") =~= seq![0x66u8, 0x70u8, 0x65u8, 0x32u8]);
    }
    assert(code("si16") == seq![0x73u8, 0x69u8, 0x31u8, 0x36u8]) by {
        reveal_strlit("si16");
        assert(is_ascii("si16"));
        assert(code("si16") =~= seq![0x73u8, 0x69u8, 0x31u8, 0x36u8]);
    }
    assert(code("si32") == seq![0x73u8, 0x69u8, 0x33u8, 0x32u8]) by {
        reveal_strlit("si32");
        assert(is_ascii("si32"));
        assert(code("si32") =~= seq![0x73u8, 0x69u8, 0x33u8, 0x32u8]);
    }
    assert(code("si8") == seq![0x73u8, 0x69u8, 0x38u8]) by {
        reveal_strlit("si8");
        assert(is_ascii("si8"));
        assert(code("si8") =~= seq![0x73u8, 0x69u8, 0x38u8]);
    }
    assert(code("sp4b") == seq![0x73u8, 0x70u8, 0x34u8, 0x62u8]) by {
        reveal_strlit("sp4b");
        assert(is_ascii("sp4b"));
        assert(code("sp4b") =~= seq![0x73u8, 0x70u8, 0x34u8, 0x62u8]);
    }
    assert(code("sp78") == seq![0x73u8, 0x70u8, 0x37u8, 0x38u8]) by {
        reveal_strlit("sp78");
        assert(is_ascii("sp78"));
        assert(code("sp78") =~= seq![0x73u8, 0x70u8, 0x37u8, 0x38u8]);
    }
    assert(code("ui16") == seq![0x75u8, 0x69u8, 0x31u8, 0x36u8]) by {
        reveal_strlit("ui16");
        assert(is_ascii("ui16"));
        assert(code("ui16") =~= seq![0x75u8, 0x69u8, 0x31u8, 0x36u8]);
    }
    assert(code("ui32") == seq![0x75u8, 0x69u8, 0x33u8, 0x32u8]) by {
        reveal_strlit("ui32");
        assert(is_ascii("ui32"));
        assert(code("ui32") =~= seq![0x75u8, 0x69u8, 0x33u8, 0x32u8]);
    }
    assert(code("ui8") == seq![0x75u8, 0x69u8, 0x38u8]) by {
        reveal_strlit("ui8");
        assert(is_ascii("ui8"));
        assert(code("ui8") =~= seq![0x75u8, 0x69u8, 0x38u8]);
    }
    assert(code("ioft") == seq![0x69u8, 0x6fu8, 0x66u8, 0x74u8]) by {
        reveal_strlit("ioft");
        assert(is_ascii("ioft"));
        assert(code("ioft") =~= seq![0x69u8, 0x6fu8, 0x66u8, 0x74u8]);
    }
    assert(code("_hex") == seq![0x5fu8, 0x68u8, 0x65u8, 0x78u8]) by {
        reveal_strlit("_hex");
        assert(is_ascii("_hex"));
        assert(code("_hex") =~= seq![0x5fu8, 0x68u8, 0x65u8, 0x78u8]);
    }
}

/// The bytes of the unsigned fixed-point codes.
proof fn lemma_unsigned_code_bytes()
    ensures
        code("fp1f") == seq![0x66u8, 0x70u8, 0x31u8, 0x66u8],
        code("fp2e") == seq![0x66u8, 0x70u8, 0x32u8, 0x65u8],
        code("fp3d") == seq![0x66u8, 0x70u8, 0x33u8, 0x64u8],
        code("fp4c") == seq![0x66u8, 0x70u8, 0x34u8, 0x63u8],
        code("fp5b") == seq![0x66u8, 0x70u8, 0x35u8, 0x62u8],
        code("fp6a") == seq![0x66u8, 0x70u8, 0x36u8, 0x61u8],
        code("fp79") == seq![0x66u8, 0x70u8, 0x37u8, 0x39u8],
        code("fp88") == seq![0x66u8, 0x70u8, 0x38u8, 0x38u8],
        code("fpa6") == seq![0x66u8, 0x70u8, 0x61u8, 0x36u8],
        code("fpc4") == seq![0x66u8, 0x70u8, 0x63u8, 0x34u8],
        code("fpe2") == seq![0x66u8, 0x70u8, 0x65u8, 0x32u8],
{
    broadcast use vstd::string::is_ascii_spec_bytes;

    assert(code("fp1f") == seq![0x66u8, 0x70u8, 0x31u8, 0x66u8]) by {
        reveal_strlit("fp1f");
        assert(is_ascii("fp1f"));
        assert(code("fp1f") =~= seq![0x66u8, 0x70u8, 0x31u8, 0x66u8]);
    }
    assert(code("fp2e") == seq![0x66u8, 0x70u8, 0x32u8, 0x65u8]) by {
        reveal_strlit("fp2e");
        assert(is_ascii("fp2e"));
        assert(code("fp2e") =~= seq![0x66u8, 0x70u8, 0x32u8, 0x65u8]);
    }
    assert(code("fp3d") == seq![0x66u8, 0x70u8, 0x33u8, 0x64u8]) by {
        reveal_strlit("fp3d");
        assert(is_ascii("fp3d"));
        assert(code("fp3d") =~= seq![0x66u8, 0x70u8, 0x33u8, 0x64u8]);
    }
    assert(code("fp4c") == seq![0x66u8, 0x70u8, 0x34u8, 0x63u8]) by {
        reveal_strlit("fp4c");
        assert(is_ascii("fp4c"));
        assert(code("fp4c") =~= seq![0x66u8, 0x70u8, 0x34u8, 0x63u8]);
    }
    assert(code("fp5b") == seq![0x66u8, 0x70u8, 0x35u8, 0x62u8]) by {
        reveal_strlit("fp5b");
        assert(is_ascii("fp5b"));
        assert(code("fp5b") =~= seq![0x66u8, 0x70u8, 0x35u8, 0x62u8]);
    }
    assert(code("fp6a") == seq![0x66u8, 0x70u8, 0x36u8, 0x61u8]) by {
        reveal_strlit("fp6a");
        assert(is_ascii("fp6a"));
        assert(code("fp6a") =~= seq![0x66u8, 0x70u8, 0x36u8, 0x61u8]);
    }
    assert(code("fp79") == seq![0x66u8, 0x70u8, 0x37u8, 0x39u8]) by {
        reveal_strlit("fp79");
        assert(is_ascii("fp79"));
        assert(code("fp79") =~= seq![0x66u8, 0x70u8, 0x37u8, 0x39u8]);
    }
    assert(code("fp88") == seq![0x66u8, 0x70u8, 0x38u8, 0x38u8]) by {
        reveal_strlit("fp88");
        assert(is_ascii("fp88"));
        assert(code("fp88") =~= seq![0x66u8, 0x70u8, 0x38u8, 0x38u8]);
    }
    assert(code("fpa6") == seq![0x66u8, 0x70u8, 0x61u8, 0x36u8]) by {
        reveal_strlit("fpa6");
        assert(is_ascii("fpa6"));
        assert(code("fpa6") =~= seq![0x66u8, 0x70u8, 0x61u8, 0x36u8]);
    }
    assert(code("fpc4") == seq![0x66u8, 0x70u8, 0x63u8, 0x34u8]) by {
        reveal_strlit("fpc4");
        assert(is_ascii("fpc4"));
        assert(code("fpc4") =~= seq![0x66u8, 0x70u8, 0x63u8, 0x34u8]);
    }
    assert(code("fpe2") == seq![0x66u8, 0x70u8, 0x65u8, 0x32u8]) by {
        reveal_strlit("fpe2");
        assert(is_ascii("fpe2"));
        assert(code("fpe2") =~= seq![0x66u8, 0x70u8, 0x65u8, 0x32u8]);
    }
}

/// The bytes of the signed fixed-point codes.
proof fn lemma_signed_code_bytes()
    ensures
        code("sp1e") == seq![0x73u8, 0x70u8, 0x31u8, 0x65u8],
        code("sp2d") == seq![0x73u8, 0x70u8, 0x32u8, 0x64u8],
        code("sp3c") == seq![0x73u8, 0x70u8, 0x33u8, 0x63u8],
        code("sp4b") == seq![0x73u8, 0x70u8, 0x34u8, 0x62u8],
        code("sp5a") == seq![0x73u8, 0x70u8, 0x35u8, 0x61u8],
        code("sp69") == seq![0x73u8, 0x70u8, 0x36u8, 0x39u8],
        code("sp78") == seq![0x73u8, 0x70u8, 0x37u8, 0x38u8],
        code("sp87") == seq![0x73u8, 0x70u8, 0x38u8, 0x37u8],
        code("sp96") == seq![0x73u8, 0x70u8, 0x39u8, 0x36u8],
        code("spa5") == seq![0x73u8, 0x70u8, 0x61u8, 0x35u8],
        code("spb4") == seq![0x73u8, 0x70u8, 0x62u8, 0x34u8],
        code("spf0") == seq![0x73u8, 0x70u8, 0x66u8, 0x30u8],
{
    broadcast use vstd::string::is_ascii_spec_bytes;

    assert(code("sp1e") == seq![0x73u8, 0x70u8, 0x31u8, 0x65u8]) by {
        reveal_strlit("sp1e");
        assert(is_ascii("sp1e"));
        assert(code("sp1e") =~= seq![0x73u8, 0x70u8, 0x31u8, 0x65u8]);
    }
    assert(code("sp2d") == seq![0x73u8, 0x70u8, 0x32u8, 0x64u8]) by {
        reveal_strlit("sp2d");
        assert(is_ascii("sp2d"));
        assert(code("sp2d") =~= seq![0x73u8, 0x70u8, 0x32u8, 0x64u8]);
    }
    assert(code("sp3c") == seq![0x73u8, 0x70u8, 0x33u8, 0x63u8]) by {
        reveal_strlit("sp3c");
        assert(is_ascii("sp3c"));
        assert(code("sp3c") =~= seq![0x73u8, 0x70u8, 0x33u8, 0x63u8]);
    }
    assert(code("sp4b") == seq![0x73u8, 0x70u8, 0x34u8, 0x62u8]) by {
        reveal_strlit("sp4b");
        assert(is_ascii("sp4b"));
        assert(code("sp4b") =~= seq![0x73u8, 0x70u8, 0x34u8, 0x62u8]);
    }
    assert(code("sp5a") == seq![0x73u8, 0x70u8, 0x35u8, 0x61u8]) by {
        reveal_strlit("sp5a");
        assert(is_ascii("sp5a"));
        assert(code("sp5a") =~= seq![0x73u8, 0x70u8, 0x35u8, 0x61u8]);
    }
    assert(code("sp69") == seq![0x73u8, 0x70u8, 0x36u8, 0x39u8]) by {
        reveal_strlit("sp69");
        assert(is_ascii("sp69"));
        assert(code("sp69") =~= seq![0x73u8, 0x70u8, 0x36u8, 0x39u8]);
    }
    assert(code("sp78") == seq![0x73u8, 0x70u8, 0x37u8, 0x38u8]) by {
        reveal_strlit("sp78");
        assert(is_ascii("sp78"));
        assert(code("sp78") =~= seq![0x73u8, 0x70u8, 0x37u8, 0x38u8]);
    }
    assert(code("sp87") == seq![0x73u8, 0x70u8, 0x38u8, 0x37u8]) by {
        reveal_strlit("sp87");
        assert(is_ascii("sp87"));
        assert(code("sp87") =~= seq![0x73u8, 0x70u8, 0x38u8, 0x37u8]);
    }
    assert(code("sp96") == seq![0x73u8, 0x70u8, 0x39u8, 0x36u8]) by {
        reveal_strlit("sp96");
        assert(is_ascii("sp96"));
        assert(code("sp96") =~= seq![0x73u8, 0x70u8, 0x39u8, 0x36u8]);
    }
    assert(code("spa5") == seq![0x73u8, 0x70u8, 0x61u8, 0x35u8]) by {
        reveal_strlit("spa5");
        assert(is_ascii("spa5"));
        assert(code("spa5") =~= seq![0x73u8, 0x70u8, 0x61u8, 0x35u8]);
    }
    assert(code("spb4") == seq![0x73u8, 0x70u8, 0x62u8, 0x34u8]) by {
        reveal_strlit("spb4");
        assert(is_ascii("spb4"));
        assert(code("spb4") =~= seq![0x73u8, 0x70u8, 0x62u8, 0x34u8]);
    }
    assert(code("spf0") == seq![0x73u8, 0x70u8, 0x66u8, 0x30u8]) by {
        reveal_strlit("spf0");
        assert(is_ascii("spf0"));
        assert(code("spf0") =~= seq![0x73u8, 0x70u8, 0x66u8, 0x30u8]);
    }
}

/// The bytes of the fixed-point codes: their characters in ASCII.
pub proof fn lemma_fixed_point_code_bytes()
    ensures
        code("fp1f") == seq![0x66u8, 0x70u8, 0x31u8, 0x66u8],
        code("fp2e") == seq![0x66u8, 0x70u8, 0x32u8, 0x65u8],
        code("fp3d") == seq![0x66u8, 0x70u8, 0x33u8, 0x64u8],
        code("fp4c") == seq![0x66u8, 0x70u8, 0x34u8, 0x63u8],
        code("fp5b") == seq![0x66u8, 0x70u8, 0x35u8, 0x62u8],
        code("fp6a") == seq![0x66u8, 0x70u8, 0x36u8, 0x61u8],
        code("fp79") == seq![0x66u8, 0x70u8, 0x37u8, 0x39u8],
        code("fp88") == seq![0x66u8, 0x70u8, 0x38u8, 0x38u8],
        code("fpa6") == seq![0x66u8, 0x70u8, 0x61u8, 0x36u8],
        code("fpc4") == seq![0x66u8, 0x70u8, 0x63u8, 0x34u8],
        code("fpe2") == seq![0x66u8, 0x70u8, 0x65u8, 0x32u8],
        code("sp1e") == seq![0x73u8, 0x70u8, 0x31u8, 0x65u8],
        code("sp2d") == seq![0x73u8, 0x70u8, 0x32u8, 0x64u8],
        code("sp3c") == seq![0x73u8, 0x70u8, 0x33u8, 0x63u8],
        code("sp4b") == seq![0x73u8, 0x70u8, 0x34u8, 0x62u8],
        code("sp5a") == seq![0x73u8, 0x70u8, 0x35u8, 0x61u8],
        code("sp69") == seq![0x73u8, 0x70u8, 0x36u8, 0x39u8],
        code("sp78") == seq![0x73u8, 0x70u8, 0x37u8, 0x38u8],
        code("sp87") == seq![0x73u8, 0x70u8, 0x38u8, 0x37u8],
        code("sp96") == seq![0x73u8, 0x70u8, 0x39u8, 0x36u8],
        code("spa5") == seq![0x73u8, 0x70u8, 0x61u8, 0x35u8],
        code("spb4") == seq![0x73u8, 0x70u8, 0x62u8, 0x34u8],
        code("spf0") == seq![0x73u8, 0x70u8, 0x66u8, 0x30u8],
{
    lemma_unsigned_code_bytes();
    lemma_signed_code_bytes();
}

/// The sensor key at a position of the reading order.
pub fn sensor_key(index: usize) -> (key: &'static str)
    requires
        index < SENSOR_COUNT,
    ensures
        code(key) == sensor_keys()[index as int],
{
    if index == 0 {
        "PPBR"
    } else if index == 1 {
        "PDTR"
    } else if index == 2 {
        "PSTR"
    } else if index == 3 {
        "PHPC"
    } else if index == 4 {
        "PDBR"
    } else if index == 5 {
        "B0FC"
    } else if index == 6 {
        "SBAR"
    } else if index == 7 {
        "CHCC"
    } else if index == 8 {
        "B0TE"
    } else if index == 9 {
        "B0TF"
    } else {
        "TB0T"
    }
}

/// One reading of the sensors, each channel as its payload holds it. A
/// channel whose key could not be read is zero.
#[derive(Debug, Clone, Copy, PartialEq, Eq, Structural)]
pub struct SMCPowerData {
    pub battery_rate: Dyadic,
    pub delivery_rate: Dyadic,
    pub system_total: Dyadic,
    pub heatpipe: Dyadic,
    pub brightness: Dyadic,
    pub full_charge_capacity: Dyadic,
    pub current_capacity: Dyadic,
    pub charging_status: Dyadic,
    pub time_to_empty: Dyadic,
    pub time_to_full: Dyadic,
    pub temperature: Dyadic,
}

impl SMCPowerData {
    /// The reading with every channel at zero.
    pub open spec fn zeroed() -> SMCPowerData {
        let z = Dyadic { negative: false, mantissa: 0, exponent: 0 };
        SMCPowerData {
            battery_rate: z,
            delivery_rate: z,
            system_total: z,
            heatpipe: z,
            brightness: z,
            full_charge_capacity: z,
            current_capacity: z,
            charging_status: z,
            time_to_empty: z,
            time_to_full: z,
            temperature: z,
        }
    }

    /// Whether the charging-status channel is above `2^-23`, the smallest
    /// step of a single-precision float at one.
    pub open spec fn charging(self) -> bool {
        self.charging_status.above_epsilon()
    }

    /// Whether the battery is being charged: the charging-status channel is
    /// above the smallest step of a single-precision float at one.
    pub fn is_charging(&self) -> (r: bool)
        ensures
            r == self.charging(),
    {
        self.charging_status.is_above_epsilon()
    }

    /// The reading with the channel of `key` set to `value`; a key that names
    /// no channel changes nothing.
    pub open spec fn with_channel(self, key: Seq<u8>, value: Dyadic) -> SMCPowerData {
        if key == code("PPBR") {
            SMCPowerData { battery_rate: value, ..self }
        } else if key == code("PDTR") {
            SMCPowerData { delivery_rate: value, ..self }
        } else if key == code("PSTR") {
            SMCPowerData { system_total: value, ..self }
        } else if key == code("PHPC") {
            SMCPowerData { heatpipe: value, ..self }
        } else if key == code("PDBR") {
            SMCPowerData { brightness: value, ..self }
        } else if key == code("B0FC") {
            SMCPowerData { full_charge_capacity: value, ..self }
        } else if key == code("SBAR") {
            SMCPowerData { current_capacity: value, ..self }
        } else if key == code("CHCC") {
            SMCPowerData { charging_status: value, ..self }
        } else if key == code("B0TE") {
            SMCPowerData { time_to_empty: value, ..self }
        } else if key == code("B0TF") {
            SMCPowerData { time_to_full: value, ..self }
        } else if key == code("TB0T") {
            SMCPowerData { temperature: value, ..self }
        } else {
            self
        }
    }

    /// Stores `value` in the channel that `key` names; a key that names no
    /// channel changes nothing.
    pub fn set_channel(&mut self, key: &[u8], value: Dyadic)
        ensures
            *final(self) == old(self).with_channel(key@, value),
    {
        if bytes_equal(key, "PPBR".as_bytes()) {
            self.battery_rate = value;
        } else if bytes_equal(key, "PDTR".as_bytes()) {
            self.delivery_rate = value;
        } else if bytes_equal(key, "PSTR".as_bytes()) {
            self.system_total = value;
        } else if bytes_equal(key, "PHPC".as_bytes()) {
            self.heatpipe = value;
        } else if bytes_equal(key, "PDBR".as_bytes()) {
            self.brightness = value;
        } else if bytes_equal(key, "B0FC".as_bytes()) {
            self.full_charge_capacity = value;
        } else if bytes_equal(key, "SBAR".as_bytes()) {
            self.current_capacity = value;
        } else if bytes_equal(key, "CHCC".as_bytes()) {
            self.charging_status = value;
        } else if bytes_equal(key, "B0TE".as_bytes()) {
            self.time_to_empty = value;
        } else if bytes_equal(key, "B0TF".as_bytes()) {
            self.time_to_full = value;
        } else if bytes_equal(key, "TB0T".as_bytes()) {
            self.temperature = value;
        }
    }
}

impl Default for SMCPowerData {
    fn default() -> (r: Self)
        ensures
            r == SMCPowerData::zeroed(),
    {
        let z = Dyadic { negative: false, mantissa: 0, exponent: 0 };
        SMCPowerData {
            battery_rate: z,
            delivery_rate: z,
            system_total: z,
            heatpipe: z,
            brightness: z,
            full_charge_capacity: z,
            current_capacity: z,
            charging_status: z,
            time_to_empty: z,
            time_to_full: z,
            temperature: z,
        }
    }
}

/// The version block of the request record.
#[derive(Debug, Copy, Clone, PartialEq, Eq, Structural)]
pub struct DataVers {
    pub major: u8,
    pub minor: u8,
    pub build: u8,
    pub reserved: u8,
    pub release: u16,
}

/// The limit-data block of the request record.
#[derive(Debug, Copy, Clone, PartialEq, Eq, Structural)]
pub struct PLimitData {
    pub version: u16,
    pub length: u16,
    pub cpu_plimit: u32,
    pub gpu_plimit: u32,
    pub mem_plimit: u32,
}

/// The metadata of a key: the size of its payload, its type tag, its
/// attribute flags.
#[derive(Debug, Copy, Clone, PartialEq, Eq, Structural)]
pub struct KeyInfo {
    pub data_size: u32,
    pub data_type: u32,
    pub data_attributes: u8,
}

/// The record that goes to the controller and comes back from it.
#[derive(Debug, Copy, Clone, PartialEq, Eq)]
pub struct SMCKeyData {
    pub key: u32,
    pub vers: DataVers,
    pub plimit_data: PLimitData,
    pub key_info: KeyInfo,
    pub result: u8,
    pub status: u8,
    pub data8: u8,
    pub data32: u32,
    pub bytes: [u8; 32],
}

impl Default for DataVers {
    fn default() -> (r: Self)
        ensures
            r == (DataVers { major: 0, minor: 0, build: 0, reserved: 0, release: 0 }),
    {
        DataVers { major: 0, minor: 0, build: 0, reserved: 0, release: 0 }
    }
}

impl Default for PLimitData {
    fn default() -> (r: Self)
        ensures
            r == (PLimitData { version: 0, length: 0, cpu_plimit: 0, gpu_plimit: 0, mem_plimit: 0 }),
    {
        PLimitData { version: 0, length: 0, cpu_plimit: 0, gpu_plimit: 0, mem_plimit: 0 }
    }
}

impl Default for KeyInfo {
    fn default() -> (r: Self)
        ensures
            r == (KeyInfo { data_size: 0, data_type: 0, data_attributes: 0 }),
    {
        KeyInfo { data_size: 0, data_type: 0, data_attributes: 0 }
    }
}

/// The payload that is all zero.
pub open spec fn zero_payload() -> [u8; 32] {
    spec_array_fill_for_copy_type(0u8)
}

impl SMCKeyData {
    /// The record that asks for `command` on `key`, with the given metadata
    /// and payload and every other field zero.
    pub open spec fn request(key: u32, command: u8, key_info: KeyInfo, bytes: [u8; 32]) -> SMCKeyData {
        SMCKeyData {
            key,
            vers: DataVers { major: 0, minor: 0, build: 0, reserved: 0, release: 0 },
            plimit_data: PLimitData {
                version: 0,
                length: 0,
                cpu_plimit: 0,
                gpu_plimit: 0,
                mem_plimit: 0,
            },
            key_info,
            result: 0,
            status: 0,
            data8: command,
            data32: 0,
            bytes,
        }
    }

    /// The record with every field zero.
    pub open spec fn zeroed() -> SMCKeyData {
        SMCKeyData::request(
            0,
            0,
            KeyInfo { data_size: 0, data_type: 0, data_attributes: 0 },
            zero_payload(),
        )
    }

    /// The record that asks for `command` on `key`, with the given metadata
    /// and payload and every other field zero.
    pub fn new_request(key: u32, command: u8, key_info: KeyInfo, bytes: [u8; 32]) -> (r: SMCKeyData)
        ensures
            r == SMCKeyData::request(key, command, key_info, bytes),
    {
        SMCKeyData {
            key,
            vers: DataVers::default(),
            plimit_data: PLimitData::default(),
            key_info,
            result: 0,
            status: 0,
            data8: command,
            data32: 0,
            bytes,
        }
    }
}

impl Default for SMCKeyData {
    fn default() -> (r: Self)
        ensures
            r == SMCKeyData::zeroed(),
    {
        SMCKeyData::new_request(0, 0, KeyInfo::default(), array_fill_for_copy_types(0u8))
    }
}

/// The number of bytes of the record as it goes over the channel.
pub const WIRE_SIZE: usize = 80;

/// The `count` bytes of a number, lowest first.
pub open spec fn le_bytes(v: int, count: nat) -> Seq<u8>
    decreases count,
{
    if count == 0 {
        Seq::empty()
    } else {
        seq![(v % 256) as u8] + le_bytes(v / 256, (count - 1) as nat)
    }
}

/// The record as it goes over the channel: its fields in order, each number
/// lowest byte first, each block filled up to a multiple of four bytes.
pub open spec fn wire_image(d: SMCKeyData) -> Seq<u8> {
    le_bytes(d.key as int, 4) + seq![d.vers.major, d.vers.minor, d.vers.build, d.vers.reserved]
        + le_bytes(d.vers.release as int, 2) + seq![0u8, 0u8] + le_bytes(
        d.plimit_data.version as int,
        2,
    ) + le_bytes(d.plimit_data.length as int, 2) + le_bytes(d.plimit_data.cpu_plimit as int, 4)
        + le_bytes(d.plimit_data.gpu_plimit as int, 4) + le_bytes(
        d.plimit_data.mem_plimit as int,
        4,
    ) + le_bytes(d.key_info.data_size as int, 4) + le_bytes(d.key_info.data_type as int, 4) + seq![
        d.key_info.data_attributes,
        0u8,
        0u8,
        0u8,
    ] + seq![d.result, d.status, d.data8, 0u8] + le_bytes(d.data32 as int, 4) + d.bytes@
}

/// Whether `d` is the record that eighty bytes from the channel hold. The
/// bytes that only fill up a block are not looked at.
pub open spec fn wire_holds(s: Seq<u8>, d: SMCKeyData) -> bool {
    &&& s.len() == WIRE_SIZE
    &&& d.key == le_word(s, 4)
    &&& d.vers.major == s[4]
    &&& d.vers.minor == s[5]
    &&& d.vers.build == s[6]
    &&& d.vers.reserved == s[7]
    &&& d.vers.release == le_word(s.skip(8), 2)
    &&& d.plimit_data.version == le_word(s.skip(12), 2)
    &&& d.plimit_data.length == le_word(s.skip(14), 2)
    &&& d.plimit_data.cpu_plimit == le_word(s.skip(16), 4)
    &&& d.plimit_data.gpu_plimit == le_word(s.skip(20), 4)
    &&& d.plimit_data.mem_plimit == le_word(s.skip(24), 4)
    &&& d.key_info.data_size == le_word(s.skip(28), 4)
    &&& d.key_info.data_type == le_word(s.skip(32), 4)
    &&& d.key_info.data_attributes == s[36]
    &&& d.result == s[40]
    &&& d.status == s[41]
    &&& d.data8 == s[42]
    &&& d.data32 == le_word(s.skip(44), 4)
    &&& d.bytes@ == s.subrange(48, 80)
}

/// Appends the `count` bytes of a number, lowest first.
fn push_le(out: &mut Vec<u8>, v: u32, count: usize)
    requires
        count <= 4,
    ensures
        final(out)@ == old(out)@ + le_bytes(v as int, count as nat),
{
    let mut rest: u32 = v;
    let mut i: usize = 0;
    assert(out@ =~= old(out)@ + le_bytes(v as int, 0));
    while i < count
        invariant
            i <= count,
            old(out)@ + le_bytes(v as int, count as nat) == out@ + le_bytes(
                rest as int,
                (count - i) as nat,
            ),
        decreases count - i,
    {
        proof {
            let tail = le_bytes(rest as int / 256, (count - i - 1) as nat);
            assert(out@ + (seq![(rest as int % 256) as u8] + tail) =~= out@.push(
                (rest as int % 256) as u8,
            ) + tail);
        }
        out.push((rest % 256) as u8);
        rest = rest / 256;
        i = i + 1;
    }
    assert(out@ + le_bytes(rest as int, 0) =~= out@);
}

/// The number that `count` bytes at `offset` stand for, lowest first.
fn read_le(bytes: &[u8], offset: usize, count: usize) -> (r: u32)
    requires
        count <= 4,
        offset + count <= bytes@.len(),
    ensures
        r == le_word(bytes@.skip(offset as int), count as nat),
{
    let mut r: u32 = 0;
    let mut i: usize = count;
    let len = bytes.len();
    let ghost s = bytes@.skip(offset as int);
    while i > 0
        invariant
            i <= count,
            count <= 4,
            len == bytes@.len(),
            offset + count <= len,
            s == bytes@.skip(offset as int),
            r == le_word(s.skip(i as int), (count - i) as nat),
            r < pow256((count - i) as nat),
        decreases i,
    {
        proof {
            assert(s.skip(i - 1).drop_first() =~= s.skip(i as int));
            assert(s.skip(i - 1)[0] == bytes@[offset + i - 1]);
            lemma_pow256();
        }
        i = i - 1;
        r = r * 256 + bytes[offset + i] as u32;
    }
    proof {
        assert(s.skip(0) =~= s);
    }
    r
}

/// `256^n`.
pub open spec fn pow256(n: nat) -> int
    decreases n,
{
    if n == 0 {
        1
    } else {
        256 * pow256((n - 1) as nat)
    }
}

/// The first powers of 256.
pub proof fn lemma_pow256()
    ensures
        pow256(0) == 1,
        pow256(1) == 0x100,
        pow256(2) == 0x1_0000,
        pow256(3) == 0x100_0000,
        pow256(4) == 0x1_0000_0000,
{
    reveal_with_fuel(pow256, 5);
}

impl SMCKeyData {
    /// Writes the record out as it goes over the channel.
    pub fn to_wire(&self) -> (r: Vec<u8>)
        ensures
            r@ == wire_image(*self),
            r@.len() == WIRE_SIZE,
    {
        let mut out: Vec<u8> = Vec::new();
        push_le(&mut out, self.key, 4);
        out.push(self.vers.major);
        out.push(self.vers.minor);
        out.push(self.vers.build);
        out.push(self.vers.reserved);
        push_le(&mut out, self.vers.release as u32, 2);
        out.push(0);
        out.push(0);
        push_le(&mut out, self.plimit_data.version as u32, 2);
        push_le(&mut out, self.plimit_data.length as u32, 2);
        push_le(&mut out, self.plimit_data.cpu_plimit, 4);
        push_le(&mut out, self.plimit_data.gpu_plimit, 4);
        push_le(&mut out, self.plimit_data.mem_plimit, 4);
        push_le(&mut out, self.key_info.data_size, 4);
        push_le(&mut out, self.key_info.data_type, 4);
        out.push(self.key_info.data_attributes);
        out.push(0);
        out.push(0);
        out.push(0);
        out.push(self.result);
        out.push(self.status);
        out.push(self.data8);
        out.push(0);
        push_le(&mut out, self.data32, 4);
        let ghost head = out@;
        proof {
            lemma_le_bytes_len();
            assert(head.len() == 48);
        }
        let mut i: usize = 0;
        while i < 32
            invariant
                i <= 32,
                out@ == head + self.bytes@.subrange(0, i as int),
            decreases 32 - i,
        {
            out.push(self.bytes[i]);
            proof {
                assert(head + self.bytes@.subrange(0, i as int).push(self.bytes@[i as int]) =~= head
                    + self.bytes@.subrange(0, i + 1));
            }
            i = i + 1;
        }
        proof {
            assert(self.bytes@.subrange(0, 32) =~= self.bytes@);
            assert(head =~= wire_image(*self).subrange(0, 48));
            assert(out@ =~= wire_image(*self));
        }
        out
    }

    /// Reads the record that came back over the channel; `None` unless the
    /// bytes are eighty.
    pub fn from_wire(bytes: &[u8]) -> (r: Option<SMCKeyData>)
        ensures
            r is Some <==> bytes@.len() == WIRE_SIZE,
            r matches Some(d) ==> wire_holds(bytes@, d),
    {
        if bytes.len() != WIRE_SIZE {
            return None;
        }
        let mut payload: [u8; 32] = array_fill_for_copy_types(0u8);
        let mut i: usize = 0;
        while i < 32
            invariant
                i <= 32,
                bytes@.len() == WIRE_SIZE,
                forall|j: int| 0 <= j < i ==> payload@[j] == bytes@[48 + j],
            decreases 32 - i,
        {
            payload[i] = bytes[48 + i];
            i = i + 1;
        }
        proof {
            assert(payload@ =~= bytes@.subrange(48, 80));
            assert(bytes@.skip(0) =~= bytes@);
            lemma_pow256();
        }
        let release = read_le(bytes, 8, 2);
        let version = read_le(bytes, 12, 2);
        let length = read_le(bytes, 14, 2);
        proof {
            lemma_le_word(bytes@.skip(8) + seq![0u8, 0u8]);
            lemma_le_word_of_two(bytes@.skip(8));
            lemma_le_word_of_two(bytes@.skip(12));
            lemma_le_word_of_two(bytes@.skip(14));
        }
        Some(
            SMCKeyData {
                key: read_le(bytes, 0, 4),
                vers: DataVers {
                    major: bytes[4],
                    minor: bytes[5],
                    build: bytes[6],
                    reserved: bytes[7],
                    release: release as u16,
                },
                plimit_data: PLimitData {
                    version: version as u16,
                    length: length as u16,
                    cpu_plimit: read_le(bytes, 16, 4),
                    gpu_plimit: read_le(bytes, 20, 4),
                    mem_plimit: read_le(bytes, 24, 4),
                },
                key_info: KeyInfo {
                    data_size: read_le(bytes, 28, 4),
                    data_type: read_le(bytes, 32, 4),
                    data_attributes: bytes[36],
                },
                result: bytes[40],
                status: bytes[41],
                data8: bytes[42],
                data32: read_le(bytes, 44, 4),
                bytes: payload,
            },
        )
    }
}

/// A word of two bytes is below `2^16`.
pub proof fn lemma_le_word_of_two(bytes: Seq<u8>)
    requires
        bytes.len() >= 2,
    ensures
        0 <= le_word(bytes, 2) < 0x1_0000,
        le_word(bytes, 2) == bytes[0] + 256 * bytes[1],
{
    reveal_with_fuel(le_word, 3);
    assert(bytes.drop_first()[0] == bytes[1]);
}

/// `le_bytes` gives as many bytes as it is asked for.
pub proof fn lemma_le_bytes_len()
    ensures
        forall|v: int, n: nat| n <= 4 ==> (#[trigger] le_bytes(v, n)).len() == n,
{
    reveal_with_fuel(le_bytes, 5);
}

/// The bytes of a number that fits in them stand for that number.
pub proof fn lemma_le_round_trip(v: int, n: nat)
    requires
        n <= 4,
        0 <= v < pow256(n),
    ensures
        le_word(le_bytes(v, n), n) == v,
    decreases n,
{
    reveal_with_fuel(pow256, 2);
    reveal_with_fuel(le_bytes, 2);
    reveal_with_fuel(le_word, 2);
    if n > 0 {
        let rest = le_bytes(v / 256, (n - 1) as nat);
        let all = le_bytes(v, n);
        assert(all.drop_first() =~= rest);
        assert(all[0] == (v % 256) as u8);
        lemma_le_round_trip(v / 256, (n - 1) as nat);
    }
}

/// What is written out is read back as it was: the wire image of a record
/// has eighty bytes and holds that record and no other.
pub proof fn lemma_wire_round_trip(d: SMCKeyData, other: SMCKeyData)
    ensures
        wire_image(d).len() == WIRE_SIZE,
        wire_holds(wire_image(d), d),
        wire_holds(wire_image(d), other) ==> other == d,
{
    lemma_le_bytes_len();
    lemma_pow256();
    let s = wire_image(d);
    assert(s.len() == 80);
    assert(s.subrange(0, 4) =~= le_bytes(d.key as int, 4));
    lemma_wire_field(s, 0, d.key as int, 4);
    assert(s.subrange(8, 10) =~= le_bytes(d.vers.release as int, 2));
    lemma_wire_field(s, 8, d.vers.release as int, 2);
    assert(s.subrange(12, 14) =~= le_bytes(d.plimit_data.version as int, 2));
    lemma_wire_field(s, 12, d.plimit_data.version as int, 2);
    assert(s.subrange(14, 16) =~= le_bytes(d.plimit_data.length as int, 2));
    lemma_wire_field(s, 14, d.plimit_data.length as int, 2);
    assert(s.subrange(16, 20) =~= le_bytes(d.plimit_data.cpu_plimit as int, 4));
    lemma_wire_field(s, 16, d.plimit_data.cpu_plimit as int, 4);
    assert(s.subrange(20, 24) =~= le_bytes(d.plimit_data.gpu_plimit as int, 4));
    lemma_wire_field(s, 20, d.plimit_data.gpu_plimit as int, 4);
    assert(s.subrange(24, 28) =~= le_bytes(d.plimit_data.mem_plimit as int, 4));
    lemma_wire_field(s, 24, d.plimit_data.mem_plimit as int, 4);
    assert(s.subrange(28, 32) =~= le_bytes(d.key_info.data_size as int, 4));
    lemma_wire_field(s, 28, d.key_info.data_size as int, 4);
    assert(s.subrange(32, 36) =~= le_bytes(d.key_info.data_type as int, 4));
    lemma_wire_field(s, 32, d.key_info.data_type as int, 4);
    assert(s.subrange(44, 48) =~= le_bytes(d.data32 as int, 4));
    lemma_wire_field(s, 44, d.data32 as int, 4);
    assert(s.skip(0) =~= s);
    assert(s.subrange(48, 80) =~= d.bytes@);
    if wire_holds(s, other) {
        assert(other.bytes@ =~= d.bytes@);
        assert(other.bytes =~= d.bytes);
    }
}

/// A number that stands at an offset of a byte string is read back from
/// there.
proof fn lemma_wire_field(s: Seq<u8>, offset: int, v: int, n: nat)
    requires
        n <= 4,
        0 <= v < pow256(n),
        0 <= offset,
        offset + n <= s.len(),
        s.subrange(offset, offset + n) == le_bytes(v, n),
    ensures
        le_word(s.skip(offset), n) == v,
{
    lemma_le_round_trip(v, n);
    lemma_le_bytes_len();
    assert(s.skip(offset).subrange(0, n as int) =~= s.subrange(offset, offset + n));
    assert(le_bytes(v, n).subrange(0, n as int) =~= le_bytes(v, n));
    lemma_le_word_prefix(s.skip(offset), le_bytes(v, n), n);
}

/// `le_word` reads only the bytes it counts.
proof fn lemma_le_word_prefix(a: Seq<u8>, b: Seq<u8>, n: nat)
    requires
        n <= a.len(),
        n <= b.len(),
        a.subrange(0, n as int) == b.subrange(0, n as int),
    ensures
        le_word(a, n) == le_word(b, n),
    decreases n,
{
    if n > 0 {
        assert(a[0] == a.subrange(0, n as int)[0]);
        assert(b[0] == b.subrange(0, n as int)[0]);
        assert(a.drop_first().subrange(0, n - 1) =~= a.subrange(0, n as int).drop_first());
        assert(b.drop_first().subrange(0, n - 1) =~= b.subrange(0, n as int).drop_first());
        lemma_le_word_prefix(a.drop_first(), b.drop_first(), (n - 1) as nat);
    }
}

/// The word that the first four bytes of a key code stand for, first byte
/// highest.
pub open spec fn key_word(b: Seq<u8>) -> int {
    b[0] as int * 0x100_0000 + b[1] as int * 0x1_0000 + b[2] as int * 0x100 + b[3] as int
}

/// The four bytes of a word, highest first.
pub open spec fn word_bytes(val: u32) -> Seq<u8> {
    seq![
        (val as int / 0x100_0000) as u8,
        (val as int / 0x1_0000 % 0x100) as u8,
        (val as int / 0x100 % 0x100) as u8,
        (val as int % 0x100) as u8,
    ]
}

/// Packs the first four bytes of a key code into one word, first byte
/// highest.
pub fn str_to_u32(s: &str) -> (r: u32)
    requires
        s.spec_bytes().len() >= 4,
    ensures
        r == key_word(s.spec_bytes()),
{
    let bytes = s.as_bytes();
    bytes[0] as u32 * 0x100_0000 + bytes[1] as u32 * 0x1_0000 + bytes[2] as u32 * 0x100
        + bytes[3] as u32
}

/// The four bytes of a word, highest first, as an array.
pub open spec fn word_array(val: u32) -> [u8; 4] {
    [
        (val as int / 0x100_0000) as u8,
        (val as int / 0x1_0000 % 0x100) as u8,
        (val as int / 0x100 % 0x100) as u8,
        (val as int % 0x100) as u8,
    ]
}

/// Unpacks a word into its four bytes, highest first.
pub fn u32_to_bytes(val: u32) -> (r: [u8; 4])
    ensures
        r == word_array(val),
        r@ == word_bytes(val),
{
    let r = [
        (val / 0x100_0000) as u8,
        (val / 0x1_0000 % 0x100) as u8,
        (val / 0x100 % 0x100) as u8,
        (val % 0x100) as u8,
    ];
    assert(r@ =~= word_bytes(val));
    assert(r =~= word_array(val));
    r
}

/// Packing the bytes of a word gives the word back, and unpacking the word
/// of four bytes gives the bytes back.
pub proof fn lemma_key_codec_round_trip(val: u32, b: Seq<u8>)
    requires
        b.len() == 4,
    ensures
        key_word(word_bytes(val)) == val,
        word_bytes(key_word(b) as u32) == b,
        0 <= key_word(b) <= u32::MAX,
{
    assert((val / 0x100_0000) < 0x100 && (val / 0x100_0000) * 0x100_0000 + (val / 0x1_0000 % 0x100)
        * 0x1_0000 + (val / 0x100 % 0x100) * 0x100 + val % 0x100 == val) by (bit_vector);
    let b0: u32 = b[0] as u32;
    let b1: u32 = b[1] as u32;
    let b2: u32 = b[2] as u32;
    let b3: u32 = b[3] as u32;
    let w: u32 = (b0 * 0x100_0000 + b1 * 0x1_0000 + b2 * 0x100 + b3) as u32;
    assert(w == key_word(b));
    assert(w / 0x100_0000 == b0 && w / 0x1_0000 % 0x100 == b1 && w / 0x100 % 0x100 == b2 && w
        % 0x100 == b3) by (bit_vector)
        requires
            b0 < 0x100,
            b1 < 0x100,
            b2 < 0x100,
            b3 < 0x100,
            w == b0 * 0x100_0000 + b1 * 0x1_0000 + b2 * 0x100 + b3,
    ;
    assert(word_bytes(w) =~= b);
}

/// The type tags that the controller uses.
#[derive(Debug, Clone, Copy, PartialEq, Eq, Structural)]
pub enum SMCType {
    CH8,
    FDS,
    FLAG,
    FLT,
    FP2E,
    FP4C,
    FP5B,
    FP88,
    FPE2,
    SI16,
    SI32,
    SI8,
    SP4B,
    SP78,
    UI16,
    UI32,
    UI8,
    IOFT,
    HEX,
}

impl SMCType {
    /// The type that a tag names, padding removed beforehand.
    pub open spec fn of_tag(tag: Seq<u8>) -> Option<SMCType> {
        if tag == code("ch8*") {
            Some(SMCType::CH8)
        } else if tag == code("{fds") {
            Some(SMCType::FDS)
        } else if tag == code("flag") {
            Some(SMCType::FLAG)
        } else if tag == code("flt") {
            Some(SMCType::FLT)
        } else if tag == code("fp2e") {
            Some(SMCType::FP2E)
        } else if tag == code("fp4c") {
            Some(SMCType::FP4C)
        } else if tag == code("fp5b") {
            Some(SMCType::FP5B)
        } else if tag == code("fp88") {
            Some(SMCType::FP88)
        } else if tag == code("fpe2") {
            Some(SMCType::FPE2)
        } else if tag == code("si16") {
            Some(SMCType::SI16)
        } else if tag == code("si32") {
            Some(SMCType::SI32)
        } else if tag == code("si8") {
            Some(SMCType::SI8)
        } else if tag == code("sp4b") {
            Some(SMCType::SP4B)
        } else if tag == code("sp78") {
            Some(SMCType::SP78)
        } else if tag == code("ui16") {
            Some(SMCType::UI16)
        } else if tag == code("ui32") {
            Some(SMCType::UI32)
        } else if tag == code("ui8") {
            Some(SMCType::UI8)
        } else if tag == code("ioft") {
            Some(SMCType::IOFT)
        } else if tag == code("_hex") {
            Some(SMCType::HEX)
        } else {
            None
        }
    }

    /// The type that the bytes of a tag name, padding removed beforehand.
    pub fn from_tag(tag: &[u8]) -> (r: Option<SMCType>)
        ensures
            r == SMCType::of_tag(tag@),
    {
        if bytes_equal(tag, "ch8*".as_bytes()) {
            Some(SMCType::CH8)
        } else if bytes_equal(tag, "{fds".as_bytes()) {
            Some(SMCType::FDS)
        } else if bytes_equal(tag, "flag".as_bytes()) {
            Some(SMCType::FLAG)
        } else if bytes_equal(tag, "flt".as_bytes()) {
            Some(SMCType::FLT)
        } else if bytes_equal(tag, "fp2e".as_bytes()) {
            Some(SMCType::FP2E)
        } else if bytes_equal(tag, "fp4c".as_bytes()) {
            Some(SMCType::FP4C)
        } else if bytes_equal(tag, "fp5b".as_bytes()) {
            Some(SMCType::FP5B)
        } else if bytes_equal(tag, "fp88".as_bytes()) {
            Some(SMCType::FP88)
        } else if bytes_equal(tag, "fpe2".as_bytes()) {
            Some(SMCType::FPE2)
        } else if bytes_equal(tag, "si16".as_bytes()) {
            Some(SMCType::SI16)
        } else if bytes_equal(tag, "si32".as_bytes()) {
            Some(SMCType::SI32)
        } else if bytes_equal(tag, "si8".as_bytes()) {
            Some(SMCType::SI8)
        } else if bytes_equal(tag, "sp4b".as_bytes()) {
            Some(SMCType::SP4B)
        } else if bytes_equal(tag, "sp78".as_bytes()) {
            Some(SMCType::SP78)
        } else if bytes_equal(tag, "ui16".as_bytes()) {
            Some(SMCType::UI16)
        } else if bytes_equal(tag, "ui32".as_bytes()) {
            Some(SMCType::UI32)
        } else if bytes_equal(tag, "ui8".as_bytes()) {
            Some(SMCType::UI8)
        } else if bytes_equal(tag, "ioft".as_bytes()) {
            Some(SMCType::IOFT)
        } else if bytes_equal(tag, "_hex".as_bytes()) {
            Some(SMCType::HEX)
        } else {
            None
        }
    }

    /// The type that a tag written as text names; an error for any other
    /// text.
    pub fn from_str(s: &str) -> (r: Result<SMCType, ()>)
        ensures
            r is Ok <==> SMCType::of_tag(code(s)) is Some,
            r matches Ok(t) ==> Some(t) == SMCType::of_tag(code(s)),
    {
        match SMCType::from_tag(s.as_bytes()) {
            Some(t) => Ok(t),
            None => Err(()),
        }
    }
}

/// A binary fixed-point format: a 16-bit word, signed or not, whose value is
/// the word divided by `2^fraction_bits`.
#[derive(Debug, Clone, Copy, PartialEq, Eq, Structural)]
pub struct FixedPoint {
    pub fraction_bits: u32,
    pub signed: bool,
}

impl FixedPoint {
    /// The number by which the word is divided.
    pub open spec fn divisor(self) -> nat {
        pow2(self.fraction_bits as nat)
    }

    /// The format that a fixed-point code names.
    pub open spec fn of_tag(tag: Seq<u8>) -> Option<FixedPoint> {
        if tag == code("fp1f") {
            Some(FixedPoint { fraction_bits: 15, signed: false })
        } else if tag == code("fp2e") {
            Some(FixedPoint { fraction_bits: 14, signed: false })
        } else if tag == code("fp3d") {
            Some(FixedPoint { fraction_bits: 13, signed: false })
        } else if tag == code("fp4c") {
            Some(FixedPoint { fraction_bits: 12, signed: false })
        } else if tag == code("fp5b") {
            Some(FixedPoint { fraction_bits: 11, signed: false })
        } else if tag == code("fp6a") {
            Some(FixedPoint { fraction_bits: 10, signed: false })
        } else if tag == code("fp79") {
            Some(FixedPoint { fraction_bits: 9, signed: false })
        } else if tag == code("fp88") {
            Some(FixedPoint { fraction_bits: 8, signed: false })
        } else if tag == code("fpa6") {
            Some(FixedPoint { fraction_bits: 6, signed: false })
        } else if tag == code("fpc4") {
            Some(FixedPoint { fraction_bits: 4, signed: false })
        } else if tag == code("fpe2") {
            Some(FixedPoint { fraction_bits: 2, signed: false })
        } else if tag == code("sp1e") {
            Some(FixedPoint { fraction_bits: 14, signed: true })
        } else if tag == code("sp2d") {
            Some(FixedPoint { fraction_bits: 13, signed: true })
        } else if tag == code("sp3c") {
            Some(FixedPoint { fraction_bits: 12, signed: true })
        } else if tag == code("sp4b") {
            Some(FixedPoint { fraction_bits: 11, signed: true })
        } else if tag == code("sp5a") {
            Some(FixedPoint { fraction_bits: 10, signed: true })
        } else if tag == code("sp69") {
            Some(FixedPoint { fraction_bits: 9, signed: true })
        } else if tag == code("sp78") {
            Some(FixedPoint { fraction_bits: 8, signed: true })
        } else if tag == code("sp87") {
            Some(FixedPoint { fraction_bits: 7, signed: true })
        } else if tag == code("sp96") {
            Some(FixedPoint { fraction_bits: 6, signed: true })
        } else if tag == code("spa5") {
            Some(FixedPoint { fraction_bits: 5, signed: true })
        } else if tag == code("spb4") {
            Some(FixedPoint { fraction_bits: 4, signed: true })
        } else if tag == code("spf0") {
            Some(FixedPoint { fraction_bits: 0, signed: true })
        } else {
            None
        }
    }

    /// The format that the bytes of a fixed-point code name.
    pub fn from_tag(tag: &[u8]) -> (r: Option<FixedPoint>)
        ensures
            r == FixedPoint::of_tag(tag@),
    {
        if bytes_equal(tag, "fp1f".as_bytes()) {
            Some(FixedPoint { fraction_bits: 15, signed: false })
        } else if bytes_equal(tag, "fp2e".as_bytes()) {
            Some(FixedPoint { fraction_bits: 14, signed: false })
        } else if bytes_equal(tag, "fp3d".as_bytes()) {
            Some(FixedPoint { fraction_bits: 13, signed: false })
        } else if bytes_equal(tag, "fp4c".as_bytes()) {
            Some(FixedPoint { fraction_bits: 12, signed: false })
        } else if bytes_equal(tag, "fp5b".as_bytes()) {
            Some(FixedPoint { fraction_bits: 11, signed: false })
        } else if bytes_equal(tag, "fp6a".as_bytes()) {
            Some(FixedPoint { fraction_bits: 10, signed: false })
        } else if bytes_equal(tag, "fp79".as_bytes()) {
            Some(FixedPoint { fraction_bits: 9, signed: false })
        } else if bytes_equal(tag, "fp88".as_bytes()) {
            Some(FixedPoint { fraction_bits: 8, signed: false })
        } else if bytes_equal(tag, "fpa6".as_bytes()) {
            Some(FixedPoint { fraction_bits: 6, signed: false })
        } else if bytes_equal(tag, "fpc4".as_bytes()) {
            Some(FixedPoint { fraction_bits: 4, signed: false })
        } else if bytes_equal(tag, "fpe2".as_bytes()) {
            Some(FixedPoint { fraction_bits: 2, signed: false })
        } else if bytes_equal(tag, "sp1e".as_bytes()) {
            Some(FixedPoint { fraction_bits: 14, signed: true })
        } else if bytes_equal(tag, "sp2d".as_bytes()) {
            Some(FixedPoint { fraction_bits: 13, signed: true })
        } else if bytes_equal(tag, "sp3c".as_bytes()) {
            Some(FixedPoint { fraction_bits: 12, signed: true })
        } else if bytes_equal(tag, "sp4b".as_bytes()) {
            Some(FixedPoint { fraction_bits: 11, signed: true })
        } else if bytes_equal(tag, "sp5a".as_bytes()) {
            Some(FixedPoint { fraction_bits: 10, signed: true })
        } else if bytes_equal(tag, "sp69".as_bytes()) {
            Some(FixedPoint { fraction_bits: 9, signed: true })
        } else if bytes_equal(tag, "sp78".as_bytes()) {
            Some(FixedPoint { fraction_bits: 8, signed: true })
        } else if bytes_equal(tag, "sp87".as_bytes()) {
            Some(FixedPoint { fraction_bits: 7, signed: true })
        } else if bytes_equal(tag, "sp96".as_bytes()) {
            Some(FixedPoint { fraction_bits: 6, signed: true })
        } else if bytes_equal(tag, "spa5".as_bytes()) {
            Some(FixedPoint { fraction_bits: 5, signed: true })
        } else if bytes_equal(tag, "spb4".as_bytes()) {
            Some(FixedPoint { fraction_bits: 4, signed: true })
        } else if bytes_equal(tag, "spf0".as_bytes()) {
            Some(FixedPoint { fraction_bits: 0, signed: true })
        } else {
            None
        }
    }
}

/// The number that `count` little-endian bytes at the start of a payload
/// stand for.
pub open spec fn le_word(bytes: Seq<u8>, count: nat) -> int
    decreases count,
{
    if count == 0 {
        0
    } else {
        bytes[0] as int + 256 * le_word(bytes.drop_first(), (count - 1) as nat)
    }
}

/// The 16-bit word at the start of a payload, read as the format says: as it
/// stands, or as a two's-complement number.
pub open spec fn fixed_point_word(format: FixedPoint, bytes: Seq<u8>) -> int {
    let word = le_word(bytes, 2);
    if format.signed && word >= 0x8000 {
        word - 0x1_0000
    } else {
        word
    }
}

/// The value of a fixed-point payload: its word divided by
/// `2^fraction_bits`, without rounding.
pub open spec fn fixed_point_value(format: FixedPoint, bytes: Seq<u8>) -> Dyadic {
    let word = fixed_point_word(format, bytes);
    Dyadic {
        negative: word < 0,
        mantissa: (if word < 0 {
            -word
        } else {
            word
        }) as u32,
        exponent: -(format.fraction_bits as int) as i32,
    }
}

/// The thousandths nearest to a word divided by `2^fraction_bits`.
pub open spec fn fixed_point_thousandths(format: FixedPoint, bytes: Seq<u8>) -> int {
    fixed_point_value(format, bytes).thousandths()
}

/// A fixed-point payload decodes to its word over the divisor of its format
/// exactly: the value times the divisor is the word.
pub proof fn lemma_fixed_point_is_exact(format: FixedPoint, bytes: Seq<u8>)
    requires
        bytes.len() >= 4,
        format.fraction_bits <= 15,
    ensures
        fixed_point_value(format, bytes).exponent >= MIN_EXPONENT,
        fixed_point_value(format, bytes).scaled() * format.divisor() == fixed_point_word(
            format,
            bytes,
        ) * pow2(149),
{
    let w = fixed_point_word(format, bytes);
    let v = fixed_point_value(format, bytes);
    let k = format.fraction_bits as nat;
    lemma_le_word(bytes);
    vstd::arithmetic::power2::lemma_pow2_adds((149 - k) as nat, k);
    let m = v.mantissa as int;
    let a = pow2((149 - k) as nat) as int;
    let d = pow2(k) as int;
    assert(v.exponent == -k);
    assert(m == if w < 0 {
        -w
    } else {
        w
    });
    assert(a * d == pow2(149));
    assert(v.scaled() == if w < 0 {
        -(m * a)
    } else {
        m * a
    });
    assert((m * a) * d == m * (a * d)) by (nonlinear_arith);
    assert((-(m * a)) * d == -(m * (a * d))) by (nonlinear_arith);
    let p = pow2(149) as int;
    assert(v.scaled() * d == w * p) by (nonlinear_arith)
        requires
            a * d == p,
            m == if w < 0 {
                -w
            } else {
                w
            },
            v.scaled() == if w < 0 {
                -(m * a)
            } else {
                m * a
            },
            (m * a) * d == m * (a * d),
            (-(m * a)) * d == -(m * (a * d)),
    ;
}

/// A fixed-point payload decodes to its word over the divisor of its format,
/// to the nearest thousandth: the thousandths times the divisor are off the
/// thousandfold of the word by half the divisor at most.
pub proof fn lemma_fixed_point_is_nearest(format: FixedPoint, bytes: Seq<u8>)
    requires
        bytes.len() >= 4,
        format.fraction_bits <= 15,
    ensures
        ({
            let t = fixed_point_thousandths(format, bytes);
            let w = fixed_point_word(format, bytes);
            let d = format.divisor() as int;
            &&& -d <= 2 * (t * d - w * 1000) <= d
            &&& w % d == 0 ==> t == (w / d) * 1000
        }),
{
    let w = fixed_point_word(format, bytes);
    let m = (if w < 0 {
        -w
    } else {
        w
    }) as nat;
    let k = format.fraction_bits as nat;
    let d = pow2(k) as int;
    let q = scaled_thousandths(m, -(k as int)) as int;
    lemma_le_word(bytes);
    lemma2_to64();
    lemma_pow2_pos(k);
    if k > 0 {
        lemma_pow2_strictly_increases(0, k);
    }
    if k < 15 {
        lemma_pow2_strictly_increases(k, 15);
    }
    lemma_scaled_is_nearest(m, -(k as int));
    assert(k == 0 ==> m * 1000 * pow2(0) == m * 1000) by (nonlinear_arith)
        requires
            pow2(0) == 1,
    ;
    assert(-d <= 2 * (q * d - m * 1000) <= d);
    assert(0 <= q <= m * 1000 + 1) by (nonlinear_arith)
        requires
            -d <= 2 * (q * d - m * 1000) <= d,
            d >= 1,
            q >= 0,
    ;
    assert(clamp_magnitude(q) == q);
    let t = fixed_point_thousandths(format, bytes);
    assert(fixed_point_value(format, bytes).mantissa == m);
    assert(t == if w < 0 {
        -q
    } else {
        q
    });
    assert(-d <= 2 * (t * d - w * 1000) <= d) by (nonlinear_arith)
        requires
            -d <= 2 * (q * d - m * 1000) <= d,
            t == if w < 0 {
                -q
            } else {
                q
            },
            m == if w < 0 {
                -w
            } else {
                w
            },
    ;
    if w % d == 0 {
        let c = w / d;
        vstd::arithmetic::div_mod::lemma_fundamental_div_mod(w, d);
        assert(t == c * 1000) by (nonlinear_arith)
            requires
                -d <= 2 * (t * d - w * 1000) <= d,
                w == d * c,
                d >= 1,
        ;
    }
}

/// The value of a payload under a fixed-point code: the first two bytes as a
/// little-endian word, signed or not as the code says, divided by the code's
/// divisor. An error for a code that names no fixed-point format.
pub fn fp_to_dyadic(fp: &[u8], bytes: &[u8; 32]) -> (r: Result<Dyadic, ()>)
    ensures
        r is Ok <==> FixedPoint::of_tag(fp@) is Some,
        r matches Ok(v) ==> v == fixed_point_value(FixedPoint::of_tag(fp@).unwrap(), bytes@),
{
    match FixedPoint::from_tag(fp) {
        None => Err(()),
        Some(format) => {
            let word: u32 = bytes[0] as u32 + 256 * (bytes[1] as u32);
            proof {
                lemma_le_word(bytes@);
            }
            if format.signed && word >= 0x8000 {
                Ok(
                    Dyadic {
                        negative: true,
                        mantissa: 0x1_0000 - word,
                        exponent: -(format.fraction_bits as i32),
                    },
                )
            } else {
                Ok(
                    Dyadic {
                        negative: false,
                        mantissa: word,
                        exponent: -(format.fraction_bits as i32),
                    },
                )
            }
        },
    }
}

/// What `le_word` is for one, two and four bytes.
pub proof fn lemma_le_word(bytes: Seq<u8>)
    requires
        bytes.len() >= 4,
    ensures
        le_word(bytes, 1) == bytes[0],
        le_word(bytes, 2) == bytes[0] + 256 * bytes[1],
        le_word(bytes, 4) == bytes[0] + 256 * bytes[1] + 65536 * bytes[2] + 16777216 * bytes[3],
        0 <= le_word(bytes, 1) < 0x100,
        0 <= le_word(bytes, 2) < 0x1_0000,
        0 <= le_word(bytes, 4) < 0x1_0000_0000,
{
    reveal_with_fuel(le_word, 5);
    let b1 = bytes.drop_first();
    let b2 = b1.drop_first();
    let b3 = b2.drop_first();
    assert(b1[0] == bytes[1]);
    assert(b2[0] == bytes[2]);
    assert(b3[0] == bytes[3]);
}

/// The value of a payload under a type tag, without rounding: the float that
/// the first four bytes encode, the unsigned integer of the first one, two
/// or four bytes, or the fixed-point word over its divisor. A tag that names
/// no numeric type has no value, and neither has a float that is no number.
pub open spec fn payload_value(tag: Seq<u8>, bytes: Seq<u8>) -> Option<Dyadic> {
    if tag == code("flt") {
        let bits = le_word(bytes, 4) as u32;
        if f32_is_finite(bits) {
            Some(Dyadic::of_f32(bits))
        } else {
            None
        }
    } else if tag == code("ui8") {
        Some(Dyadic { negative: false, mantissa: le_word(bytes, 1) as u32, exponent: 0 })
    } else if tag == code("ui16") {
        Some(Dyadic { negative: false, mantissa: le_word(bytes, 2) as u32, exponent: 0 })
    } else if tag == code("ui32") {
        Some(Dyadic { negative: false, mantissa: le_word(bytes, 4) as u32, exponent: 0 })
    } else if FixedPoint::of_tag(tag) is Some {
        Some(fixed_point_value(FixedPoint::of_tag(tag).unwrap(), bytes))
    } else {
        None
    }
}

/// The value of a payload under a type tag whose padding has been removed.
pub fn decode_payload(tag: &[u8], bytes: &[u8; 32]) -> (r: Option<Dyadic>)
    ensures
        r == payload_value(tag@, bytes@),
{
    proof {
        lemma_le_word(bytes@);
    }
    if bytes_equal(tag, "flt".as_bytes()) {
        let bits: u32 = bytes[0] as u32 + 256 * (bytes[1] as u32) + 65536 * (bytes[2] as u32)
            + 16777216 * (bytes[3] as u32);
        Dyadic::from_f32_bits(bits)
    } else if bytes_equal(tag, "ui8".as_bytes()) {
        Some(Dyadic::from_unsigned(bytes[0] as u32))
    } else if bytes_equal(tag, "ui16".as_bytes()) {
        Some(Dyadic::from_unsigned(bytes[0] as u32 + 256 * (bytes[1] as u32)))
    } else if bytes_equal(tag, "ui32".as_bytes()) {
        Some(
            Dyadic::from_unsigned(
                bytes[0] as u32 + 256 * (bytes[1] as u32) + 65536 * (bytes[2] as u32) + 16777216 * (
                bytes[3] as u32),
            ),
        )
    } else {
        match fp_to_dyadic(tag, bytes) {
            Ok(v) => Some(v),
            Err(_) => None,
        }
    }
}

/// The value of one key as it came from the controller.
#[derive(Debug, Copy, Clone, PartialEq, Eq)]
pub struct SMCVal {
    pub key: [u8; 4],
    pub data_size: u32,
    pub data_type: [u8; 4],
    pub bytes: [u8; 32],
}

impl SMCVal {
    /// The type tag without the padding before and behind it.
    pub fn data_type_str(&self) -> (r: &[u8])
        ensures
            r@ == trimmed(self.data_type@),
    {
        trim_bytes(self.data_type.as_slice())
    }

    /// The value, without rounding: a float, an unsigned integer of one,
    /// two or four bytes, or a fixed-point word over its divisor, as the
    /// type tag says. `None` where the tag names no numeric type.
    pub fn value(&self) -> (r: Option<Dyadic>)
        ensures
            r == payload_value(trimmed(self.data_type@), self.bytes@),
    {
        decode_payload(self.data_type_str(), &self.bytes)
    }
}

impl Default for SMCVal {
    fn default() -> (r: Self)
        ensures
            r.data_size == 0,
            r.key == spec_array_fill_for_copy_type::<u8, 4>(0u8),
            r.data_type == spec_array_fill_for_copy_type::<u8, 4>(0u8),
            r.bytes == zero_payload(),
    {
        SMCVal {
            key: array_fill_for_copy_types(0u8),
            data_size: 0,
            data_type: array_fill_for_copy_types(0u8),
            bytes: array_fill_for_copy_types(0u8),
        }
    }
}

/// The reading after the values in `vals[..upto]` have been folded in, each
/// into the channel that its key names. A value whose tag names no numeric
/// type changes nothing.
pub open spec fn folded(vals: Seq<SMCVal>, upto: nat) -> SMCPowerData
    decreases upto,
{
    if upto == 0 {
        SMCPowerData::zeroed()
    } else {
        let before = folded(vals, (upto - 1) as nat);
        let val = vals[upto - 1];
        match payload_value(trimmed(val.data_type@), val.bytes@) {
            Some(v) => before.with_channel(val.key@, v),
            None => before,
        }
    }
}

/// Folds the values that were read into one reading: each goes to the channel
/// that its key names, later values over earlier ones. A channel for which
/// no value came stays zero.
pub fn read_sensor(vals: &Vec<SMCVal>) -> (r: SMCPowerData)
    ensures
        r == folded(vals@, vals@.len()),
{
    let mut acc = SMCPowerData::default();
    let mut i: usize = 0;
    while i < vals.len()
        invariant
            i <= vals.len(),
            acc == folded(vals@, i as nat),
        decreases vals.len() - i,
    {
        let val = &vals[i];
        match val.value() {
            Some(v) => {
                acc.set_channel(val.key.as_slice(), v);
            },
            None => {},
        }
        i = i + 1;
    }
    acc
}

/// The controller's answer to one record: the record it sends back, or the
/// status with which the call failed.
pub type Reply = Result<SMCKeyData, i32>;

/// What to do next in an exchange with the controller.
#[derive(Debug, Copy, Clone, PartialEq, Eq)]
pub enum SMCStep {
    /// Send this record and come back with the reply.
    Call(SMCKeyData),
    /// The read is done; this is the value.
    Read(SMCVal),
    /// The write is done.
    Written,
    /// The exchange has failed with this status. Nothing is tried again.
    Failed(i32),
}

/// An exchange with the controller.
#[derive(Debug, Copy, Clone, PartialEq, Eq)]
pub enum SMCOp {
    /// Read the key with this code.
    Read(u32),
    /// Write this value to the key that it names.
    Write(SMCVal),
}

/// The metadata with every field zero.
pub open spec fn no_key_info() -> KeyInfo {
    KeyInfo { data_size: 0, data_type: 0, data_attributes: 0 }
}

/// The record that asks for the metadata of a key.
pub open spec fn key_info_request(key: u32) -> SMCKeyData {
    SMCKeyData::request(key, CMD_READ_KEYINFO, no_key_info(), zero_payload())
}

/// The record that asks for the payload of a key whose metadata is known.
pub open spec fn read_request(key: u32, info: KeyInfo) -> SMCKeyData {
    SMCKeyData::request(key, CMD_READ_BYTES, info, zero_payload())
}

/// The record that sends a payload to a key whose metadata is known.
pub open spec fn write_request(key: u32, info: KeyInfo, bytes: [u8; 32]) -> SMCKeyData {
    SMCKeyData::request(key, CMD_WRITE_BYTES, info, bytes)
}

/// The value that a read yields: the key's bytes, the size and the type tag
/// from its metadata, and the payload that came back.
pub open spec fn value_read(key: u32, info: KeyInfo, bytes: [u8; 32]) -> SMCVal {
    SMCVal {
        key: word_array(key),
        data_size: info.data_size,
        data_type: word_array(info.data_type),
        bytes,
    }
}

impl SMCOp {
    /// The code of the key that the exchange is about.
    pub open spec fn key(self) -> u32 {
        match self {
            SMCOp::Read(key) => key,
            SMCOp::Write(val) => key_word(val.key@) as u32,
        }
    }

    /// The step that follows once the metadata of the key is known: for a
    /// read, the request for the payload; for a write, the request that
    /// sends the payload, unless its size is not the key's.
    pub open spec fn with_key_info(self, info: KeyInfo) -> SMCStep {
        match self {
            SMCOp::Read(key) => SMCStep::Call(read_request(key, info)),
            SMCOp::Write(val) => if info.data_size != val.data_size {
                SMCStep::Failed(KERN_INVALID_ARGUMENT)
            } else {
                SMCStep::Call(write_request(key_word(val.key@) as u32, info, val.bytes))
            },
        }
    }

    /// The first step of the exchange: with the metadata cached, the step
    /// that follows it; otherwise the request for the metadata.
    pub open spec fn first_step(self, cache: Map<u32, KeyInfo>) -> SMCStep {
        if cache.contains_key(self.key()) {
            self.with_key_info(cache[self.key()])
        } else {
            SMCStep::Call(key_info_request(self.key()))
        }
    }

    /// The cache after the reply to `sent` has come: the metadata that a
    /// successful metadata request brought is stored under its key, and
    /// nothing else changes.
    pub open spec fn cache_after(self, cache: Map<u32, KeyInfo>, sent: SMCKeyData, reply: Reply) -> Map<
        u32,
        KeyInfo,
    > {
        match reply {
            Ok(output) => if sent.data8 == CMD_READ_KEYINFO {
                cache.insert(sent.key, output.key_info)
            } else {
                cache
            },
            Err(_) => cache,
        }
    }

    /// The step after the reply to `sent` has come. A failed call ends the
    /// exchange with its status.
    pub open spec fn next_step(self, sent: SMCKeyData, reply: Reply) -> SMCStep {
        match reply {
            Err(status) => SMCStep::Failed(status),
            Ok(output) => if sent.data8 == CMD_READ_KEYINFO {
                self.with_key_info(output.key_info)
            } else if sent.data8 == CMD_READ_BYTES {
                SMCStep::Read(value_read(sent.key, sent.key_info, output.bytes))
            } else if sent.data8 == CMD_WRITE_BYTES {
                SMCStep::Written
            } else {
                SMCStep::Failed(KERN_INVALID_ARGUMENT)
            },
        }
    }
}

/// The client's side of the protocol: the handle of the open channel and the
/// metadata of every key that has been asked for. Metadata stays for the
/// life of the connection.
pub struct SMCConnection {
    conn: u32,
    key_info_cache: HashMap<u32, KeyInfo>,
}

impl SMCConnection {
    /// The metadata that is cached, by key code.
    pub closed spec fn cache(&self) -> Map<u32, KeyInfo> {
        self.key_info_cache@
    }

    /// The handle of the open channel.
    pub closed spec fn channel(&self) -> u32 {
        self.conn
    }

    /// The client for a channel that has just been opened. Nothing is cached.
    pub fn new(conn: u32) -> (r: SMCConnection)
        ensures
            r.cache() == Map::<u32, KeyInfo>::empty(),
            r.channel() == conn,
    {
        SMCConnection { conn, key_info_cache: HashMap::with_capacity(100) }
    }

    /// The handle of the open channel.
    pub fn handle(&self) -> (r: u32)
        ensures
            r == self.channel(),
    {
        self.conn
    }

    /// The cached metadata of a key, if it has been asked for before.
    pub fn cached_key_info(&self, key: u32) -> (r: Option<KeyInfo>)
        ensures
            r is Some <==> self.cache().contains_key(key),
            r matches Some(info) ==> info == self.cache()[key],
    {
        match self.key_info_cache.get(&key) {
            Some(info) => Some(*info),
            None => None,
        }
    }

    /// Begins an exchange.
    pub fn start(&self, op: &SMCOp) -> (r: SMCStep)
        ensures
            r == op.first_step(self.cache()),
    {
        let key = op_key(op);
        match self.cached_key_info(key) {
            Some(info) => with_key_info(op, info),
            None => SMCStep::Call(
                SMCKeyData::new_request(
                    key,
                    CMD_READ_KEYINFO,
                    KeyInfo::default(),
                    array_fill_for_copy_types(0u8),
                ),
            ),
        }
    }

    /// Takes the reply to the record `sent` and says how the exchange goes
    /// on. Metadata that came back is cached; no other reply changes the
    /// cache.
    pub fn advance(&mut self, op: &SMCOp, sent: &SMCKeyData, reply: Reply) -> (r: SMCStep)
        ensures
            r == op.next_step(*sent, reply),
            final(self).cache() == op.cache_after(old(self).cache(), *sent, reply),
            final(self).channel() == old(self).channel(),
    {
        match reply {
            Err(status) => SMCStep::Failed(status),
            Ok(output) => {
                if sent.data8 == CMD_READ_KEYINFO {
                    self.key_info_cache.insert(sent.key, output.key_info);
                    with_key_info(op, output.key_info)
                } else if sent.data8 == CMD_READ_BYTES {
                    let val = SMCVal {
                        key: u32_to_bytes(sent.key),
                        data_size: sent.key_info.data_size,
                        data_type: u32_to_bytes(sent.key_info.data_type),
                        bytes: output.bytes,
                    };
                    SMCStep::Read(val)
                } else if sent.data8 == CMD_WRITE_BYTES {
                    SMCStep::Written
                } else {
                    SMCStep::Failed(KERN_INVALID_ARGUMENT)
                }
            },
        }
    }

    /// Begins the read of the key with a four-byte code.
    pub fn read_key(&self, key: &str) -> (r: (SMCOp, SMCStep))
        requires
            code(key).len() == 4,
        ensures
            r.0 == SMCOp::Read(key_word(code(key)) as u32),
            r.1 == r.0.first_step(self.cache()),
    {
        let op = SMCOp::Read(str_to_u32(key));
        let step = self.start(&op);
        (op, step)
    }

    /// Begins the write of a value to the key that it names.
    pub fn write_key(&self, val: &SMCVal) -> (r: (SMCOp, SMCStep))
        ensures
            r.0 == SMCOp::Write(*val),
            r.1 == r.0.first_step(self.cache()),
    {
        let op = SMCOp::Write(*val);
        let step = self.start(&op);
        (op, step)
    }
}

/// The code of the key that an exchange is about.
fn op_key(op: &SMCOp) -> (r: u32)
    ensures
        r == op.key(),
{
    match op {
        SMCOp::Read(key) => *key,
        SMCOp::Write(val) => {
            val.key[0] as u32 * 0x100_0000 + val.key[1] as u32 * 0x1_0000 + val.key[2] as u32
                * 0x100 + val.key[3] as u32
        },
    }
}

/// The step that follows once the metadata of the key is known.
fn with_key_info(op: &SMCOp, info: KeyInfo) -> (r: SMCStep)
    ensures
        r == op.with_key_info(info),
{
    match op {
        SMCOp::Read(key) => SMCStep::Call(
            SMCKeyData::new_request(*key, CMD_READ_BYTES, info, array_fill_for_copy_types(0u8)),
        ),
        SMCOp::Write(val) => {
            if info.data_size != val.data_size {
                SMCStep::Failed(KERN_INVALID_ARGUMENT)
            } else {
                SMCStep::Call(SMCKeyData::new_request(op_key(op), CMD_WRITE_BYTES, info, val.bytes))
            }
        },
    }
}

/// A whole exchange against a channel that answers each record in a fixed
/// way: the records that were sent, the cache afterwards, and the last step.
pub struct Exchange {
    pub requests: Seq<SMCKeyData>,
    pub cache: Map<u32, KeyInfo>,
    pub end: SMCStep,
}

/// The exchange `op` run to its end from `cache`, `budget` records at most.
pub open spec fn run_from(
    op: SMCOp,
    cache: Map<u32, KeyInfo>,
    step: SMCStep,
    channel: spec_fn(SMCKeyData) -> Reply,
    budget: nat,
) -> Exchange
    decreases budget,
{
    match step {
        SMCStep::Call(sent) => if budget == 0 {
            Exchange { requests: Seq::empty(), cache, end: step }
        } else {
            let reply = channel(sent);
            let rest = run_from(
                op,
                op.cache_after(cache, sent, reply),
                op.next_step(sent, reply),
                channel,
                (budget - 1) as nat,
            );
            Exchange { requests: seq![sent] + rest.requests, cache: rest.cache, end: rest.end }
        },
        _ => Exchange { requests: Seq::empty(), cache, end: step },
    }
}

/// The exchange `op` run from its first step to its end. No exchange sends
/// more than three records.
pub open spec fn run(op: SMCOp, cache: Map<u32, KeyInfo>, channel: spec_fn(SMCKeyData) -> Reply) -> Exchange {
    run_from(op, cache, op.first_step(cache), channel, 3)
}

/// How many of the records ask for the metadata of a key.
pub open spec fn key_info_requests(requests: Seq<SMCKeyData>) -> nat
    decreases requests.len(),
{
    if requests.len() == 0 {
        0
    } else {
        key_info_requests(requests.drop_last()) + if requests.last().data8 == CMD_READ_KEYINFO {
            1nat
        } else {
            0nat
        }
    }
}

/// An exchange runs to its end within three records, and asks for the
/// metadata of its key exactly when the cache does not hold it.
pub proof fn lemma_exchange_shape(op: SMCOp, cache: Map<u32, KeyInfo>, channel: spec_fn(SMCKeyData) -> Reply)
    ensures
        !(run(op, cache, channel).end is Call),
        run(op, cache, channel).requests.len() <= 2,
        key_info_requests(run(op, cache, channel).requests) == (if cache.contains_key(op.key()) {
            0nat
        } else {
            1nat
        }),
        cache.contains_key(op.key()) ==> run(op, cache, channel).cache == cache,
        !cache.contains_key(op.key()) && channel(key_info_request(op.key())) is Ok ==> run(
            op,
            cache,
            channel,
        ).cache == cache.insert(op.key(), channel(key_info_request(op.key()))->Ok_0.key_info),
        !cache.contains_key(op.key()) && channel(key_info_request(op.key())) is Err ==> run(
            op,
            cache,
            channel,
        ).cache == cache,
{
    reveal_with_fuel(run_from, 4);
    reveal_with_fuel(key_info_requests, 4);
    let e = run(op, cache, channel);
    let reqs = e.requests;
    if reqs.len() == 1 {
        assert(reqs.drop_last() =~= Seq::<SMCKeyData>::empty());
    }
    if reqs.len() == 2 {
        assert(reqs.drop_last() =~= seq![reqs[0]]);
        assert(reqs.drop_last().drop_last() =~= Seq::<SMCKeyData>::empty());
    }
}

/// Two reads of one key in a row ask for its metadata once: the first read
/// asks unless the cache holds it already, and once the controller has
/// answered, the second read does not ask again. Where the controller did
/// not answer, nothing was cached, and the second read asks anew.
pub proof fn lemma_key_info_fetched_once(
    key: u32,
    cache: Map<u32, KeyInfo>,
    first_channel: spec_fn(SMCKeyData) -> Reply,
    second_channel: spec_fn(SMCKeyData) -> Reply,
)
    ensures
        ({
            let op = SMCOp::Read(key);
            let first = run(op, cache, first_channel);
            let second = run(op, first.cache, second_channel);
            let answered = first_channel(key_info_request(key)) is Ok;
            &&& cache.contains_key(key) ==> key_info_requests(first.requests) == 0
                && key_info_requests(second.requests) == 0
            &&& !cache.contains_key(key) && answered ==> key_info_requests(first.requests) == 1
                && key_info_requests(second.requests) == 0
            &&& !cache.contains_key(key) && !answered ==> key_info_requests(first.requests) == 1
                && key_info_requests(second.requests) == 1
        }),
{
    let op = SMCOp::Read(key);
    lemma_exchange_shape(op, cache, first_channel);
    let first = run(op, cache, first_channel);
    lemma_exchange_shape(op, first.cache, second_channel);
}

} // verus!
