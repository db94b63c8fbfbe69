use vstd::prelude::*;

verus! {

/// bluer's address type: six octets, most significant first.
#[verifier::external_type_specification]
pub struct ExAddress(bluer::Address);

/// The character of one hexadecimal digit, upper case.
pub open spec fn hex_digit(n: u8) -> char
    recommends
        n < 16,
{
    if n < 10 {
        (('0' as u8) + n) as char
    } else {
        (('A' as u8) + (n - 10)) as char
    }
}

/// One octet as two upper-case hexadecimal digits.
pub open spec fn octet_text(b: u8) -> Seq<char> {
    seq![hex_digit(b / 16), hex_digit(b % 16)]
}

/// The octets as hexadecimal pairs, with `sep` between neighbours.
pub open spec fn joined_octets(b: Seq<u8>, sep: char) -> Seq<char>
    decreases b.len(),
{
    if b.len() == 0 {
        Seq::empty()
    } else if b.len() == 1 {
        octet_text(b[0])
    } else {
        octet_text(b[0]) + seq![sep] + joined_octets(b.drop_first(), sep)
    }
}

/// The colon convention: `AA:BB:CC:DD:EE:FF`.
pub open spec fn colon_form(b: Seq<u8>) -> Seq<char> {
    joined_octets(b, ':')
}

/// The underscore convention the audio servers use: `AA_BB_CC_DD_EE_FF`.
pub open spec fn underscore_form(b: Seq<u8>) -> Seq<char> {
    joined_octets(b, '_')
}

/// Every colon replaced by an underscore, other characters kept.
pub open spec fn normalized(s: Seq<char>) -> Seq<char> {
    s.map_values(|c: char| if c == ':' { '_' } else { c })
}

/// Relies on bluer's `Display` for `Address`: the six octets as upper-case
/// hexadecimal pairs separated by colons.
#[verifier::external_body]
fn address_text(addr: &bluer::Address) -> (r: String)
    ensures
        r@ == colon_form(addr.0@),
{
    addr.to_string()
}

/// Brings an address written in either convention to the underscore one, by
/// replacing every colon with an underscore.
pub fn normalize_address(s: &str) -> (r: String)
    ensures
        r@ == normalized(s@),
{
    let n = s.unicode_len();
    let mut out = String::new();
    let mut i: usize = 0;
    while i < n
        invariant
            n == s@.len(),
            i <= n,
            out@ == normalized(s@.subrange(0, i as int)),
        decreases n - i,
    {
        let c = s.get_char(i);
        if c == ':' {
            proof {
                reveal_strlit("_");
            }
            assert("_"@ =~= seq!['_']);
            out.append("_");
        } else {
            let one = s.substring_char(i, i + 1);
            assert(one@ =~= seq![c]);
            out.append(one);
        }
        assert(s@.subrange(0, i + 1) =~= s@.subrange(0, i as int).push(c));
        assert(normalized(s@.subrange(0, i + 1)) =~= normalized(s@.subrange(0, i as int)).push(
            if c == ':' { '_' } else { c },
        ));
        i = i + 1;
    }
    assert(s@.subrange(0, n as int) =~= s@);
    out
}

/// The address in the underscore convention, as both audio servers write it.
pub fn address_to_bluez_format(addr: &bluer::Address) -> (r: String)
    ensures
        r@ == underscore_form(addr.0@),
{
    let text = address_text(addr);
    let r = normalize_address(text.as_str());
    proof {
        lemma_normalized_joined(addr.0@, ':');
    }
    r
}

proof fn lemma_hex_digit_not_separator(n: u8)
    requires
        n < 16,
    ensures
        hex_digit(n) != ':',
        hex_digit(n) != '_',
{
}

proof fn lemma_normalized_concat(a: Seq<char>, b: Seq<char>)
    ensures
        normalized(a + b) == normalized(a) + normalized(b),
{
    assert(normalized(a + b) =~= normalized(a) + normalized(b));
}

/// Normalizing the octets joined by a colon or by an underscore gives the
/// underscore convention.
proof fn lemma_normalized_joined(b: Seq<u8>, sep: char)
    requires
        sep == ':' || sep == '_',
    ensures
        normalized(joined_octets(b, sep)) == underscore_form(b),
    decreases b.len(),
{
    if b.len() > 0 {
        lemma_hex_digit_not_separator(b[0] / 16);
        lemma_hex_digit_not_separator(b[0] % 16);
        assert(normalized(octet_text(b[0])) =~= octet_text(b[0]));
        if b.len() > 1 {
            lemma_normalized_joined(b.drop_first(), sep);
            lemma_normalized_concat(octet_text(b[0]) + seq![sep], joined_octets(b.drop_first(), sep));
            lemma_normalized_concat(octet_text(b[0]), seq![sep]);
            assert(normalized(seq![sep]) =~= seq!['_']);
        }
    }
}

/// A six-octet address written with colons and the same address written with
/// underscores normalize to the same text, the underscore convention.
pub proof fn lemma_conventions_agree(b: Seq<u8>)
    requires
        b.len() == 6,
    ensures
        normalized(colon_form(b)) == normalized(underscore_form(b)),
        normalized(colon_form(b)) == underscore_form(b),
{
    lemma_normalized_joined(b, ':');
    lemma_normalized_joined(b, '_');
}

} // verus!
