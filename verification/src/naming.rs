use vstd::prelude::*;

verus! {

/// The names of the five declarations generated for a memoized function,
/// derived deterministically from the function's identifier `f`: the
/// renamed implementation `memoized_original_f`, the wrapper `f` itself,
/// the flush and size operations `memoized_flush_f` and `memoized_size_f`,
/// and the storage symbol `memoized_mapping_f` uppercased.
#[derive(Debug)]
pub struct GeneratedNames {
    pub renamed_original: String,
    pub wrapper: String,
    pub flush: String,
    pub size: String,
    pub storage_symbol: String,
}

/// The ASCII uppercase form of a character: ASCII lowercase letters map to
/// their uppercase counterparts, every other character is unchanged.
pub open spec fn upper_char(c: char) -> char {
    if 97 <= c as u32 && c as u32 <= 122 {
        ((c as u32 - 32) as u32) as char
    } else {
        c
    }
}

/// A character sequence with its ASCII letters uppercased.
pub open spec fn upper_chars(s: Seq<char>) -> Seq<char> {
    s.map_values(|c: char| upper_char(c))
}

/// Relies on `String::from_utf8`: a vector of bytes below 128 is valid
/// UTF-8 and decodes to the string whose characters are exactly those
/// bytes.
#[verifier::external_body]
fn string_from_ascii(bytes: Vec<u8>) -> (r: String)
    requires
        forall|i: int| 0 <= i < bytes@.len() ==> bytes@[i] < 128,
    ensures
        r@.len() == bytes@.len(),
        forall|i: int| 0 <= i < bytes@.len() ==> r@[i] == bytes@[i] as char,
{
    match String::from_utf8(bytes) {
        Ok(s) => s,
        Err(_) => String::new(),
    }
}

/// The byte-level counterpart of [`upper_char`].
pub open spec fn upper_byte(b: u8) -> u8 {
    if 97 <= b && b <= 122 {
        (b - 32) as u8
    } else {
        b
    }
}

/// The identifier with its ASCII letters uppercased; an identifier with
/// characters outside the ASCII range is kept as it is.
pub fn upper_ascii(ident: &str) -> (r: String)
    ensures
        ident.is_ascii() ==> r@ == upper_chars(ident@),
        !ident.is_ascii() ==> r@ == ident@,
{
    if !ident.is_ascii() {
        return ident.to_owned();
    }
    proof {
        vstd::string::is_ascii_spec_bytes(ident);
    }
    let bytes = ident.as_bytes_vec();
    let mut out: Vec<u8> = Vec::new();
    let mut i: usize = 0;
    while i < bytes.len()
        invariant
            0 <= i <= bytes@.len(),
            out@.len() == i,
            forall|j: int| 0 <= j < i ==> out@[j] == upper_byte(bytes@[j]),
            forall|j: int| 0 <= j < bytes@.len() ==> bytes@[j] < 128,
        decreases bytes@.len() - i,
    {
        let b = bytes[i];
        if 97 <= b && b <= 122 {
            out.push(b - 32);
        } else {
            out.push(b);
        }
        i = i + 1;
    }
    let r = string_from_ascii(out);
    proof {
        broadcast use vstd::utf8::char_u32_cast;

        assert forall|j: int| 0 <= j < ident@.len() implies r@[j] == upper_chars(ident@)[j] by {
            assert(bytes@[j] == ident@[j] as u8);
        }
        assert(r@ =~= upper_chars(ident@));
    }
    r
}

/// Derives the names of the five generated declarations from the memoized
/// function's identifier.
///
/// The storage symbol is `memoized_mapping_` followed by the identifier,
/// uppercased; uppercasing covers the ASCII letters, and an identifier
/// outside the ASCII range is embedded as it is.
pub fn derive_names(ident: &str) -> (r: GeneratedNames)
    ensures
        r.renamed_original@ == "memoized_original_"@ + ident@,
        r.wrapper@ == ident@,
        r.flush@ == "memoized_flush_"@ + ident@,
        r.size@ == "memoized_size_"@ + ident@,
        r.storage_symbol@ == "MEMOIZED_MAPPING_"@ + (if vstd::string::is_ascii(ident) {
            upper_chars(ident@)
        } else {
            ident@
        }),
{
    let upper = upper_ascii(ident);
    GeneratedNames {
        renamed_original: String::from_str("memoized_original_").concat(ident),
        wrapper: ident.to_owned(),
        flush: String::from_str("memoized_flush_").concat(ident),
        size: String::from_str("memoized_size_").concat(ident),
        storage_symbol: String::from_str("MEMOIZED_MAPPING_").concat(upper.as_str()),
    }
}

} // verus!
