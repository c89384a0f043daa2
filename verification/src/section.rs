//! Section scheduler: the pure mapping from a platform family, a
//! lifecycle phase and a numeric priority to the name of the binary
//! section that holds the registered function pointer for that phase.
//!
//! The priority is encoded as a five-digit, zero-padded, base-10
//! suffix, so that the lexical order the loader applies to section
//! names agrees with the numeric order of priorities.  The Apple-like
//! family has no priority control: both phases use one fixed
//! segment-and-section pair each, a documented platform limitation.
//! An unsupported family yields a build-time error, never a name.

use vstd::prelude::*;

use crate::platform::{Phase, PlatformFamily};

verus! {

/// Build-time rejection of a target with no native constructor or
/// destructor table mechanism.
#[derive(Clone, Copy, Debug, PartialEq, Eq, Structural)]
pub enum PlatformError {
    /// The target platform family offers no before/after-entry-point
    /// section mechanism this system can use.
    UnsupportedFamily,
}

/// The decimal digit character for `d` in `[0, 9]`.
pub open spec fn digit_char(d: int) -> char {
    if d == 0 {
        '0'
    } else if d == 1 {
        '1'
    } else if d == 2 {
        '2'
    } else if d == 3 {
        '3'
    } else if d == 4 {
        '4'
    } else if d == 5 {
        '5'
    } else if d == 6 {
        '6'
    } else if d == 7 {
        '7'
    } else if d == 8 {
        '8'
    } else {
        '9'
    }
}

/// The last decimal digit of `p`, as a one-character sequence.
pub open spec fn pad1(p: int) -> Seq<char> {
    seq![digit_char(p % 10)]
}

/// The last two decimal digits of `p`, zero padded.
pub open spec fn pad2(p: int) -> Seq<char> {
    seq![digit_char((p % 100) / 10)] + pad1(p)
}

/// The last three decimal digits of `p`, zero padded.
pub open spec fn pad3(p: int) -> Seq<char> {
    seq![digit_char((p % 1000) / 100)] + pad2(p)
}

/// The last four decimal digits of `p`, zero padded.
pub open spec fn pad4(p: int) -> Seq<char> {
    seq![digit_char((p % 10000) / 1000)] + pad3(p)
}

/// `p` in `[0, 65535]` as five decimal digits, zero padded.
pub open spec fn pad5(p: int) -> Seq<char> {
    seq![digit_char(p / 10000)] + pad4(p)
}

/// Strict lexicographic order on character sequences, by code point:
/// a proper prefix comes first, otherwise the first differing
/// character decides.
pub open spec fn lex_less(a: Seq<char>, b: Seq<char>) -> bool
    decreases a.len(),
{
    if b.len() == 0 {
        false
    } else if a.len() == 0 {
        true
    } else if a[0] != b[0] {
        (a[0] as int) < (b[0] as int)
    } else {
        lex_less(a.drop_first(), b.drop_first())
    }
}

/// Constructor-table section prefix on the Windows-like family.
pub open spec fn windows_construct_prefix() -> Seq<char> {
    ".CRT$XCU"@
}

/// Destructor-table section prefix on the Windows-like family.
pub open spec fn windows_destruct_prefix() -> Seq<char> {
    ".CRT$XPTZ"@
}

/// Fixed module-init segment-and-section pair on the Apple-like
/// family; priority is ignored there by design.
pub open spec fn apple_construct_section() -> Seq<char> {
    "__DATA,__mod_init_func"@
}

/// Fixed module-term segment-and-section pair on the Apple-like
/// family; priority is ignored there by design.
pub open spec fn apple_destruct_section() -> Seq<char> {
    "__DATA,__mod_term_func"@
}

/// Constructor-table section prefix on the Unix-like family.
pub open spec fn unix_construct_prefix() -> Seq<char> {
    ".init_array."@
}

/// Destructor-table section prefix on the Unix-like family.
pub open spec fn unix_destruct_prefix() -> Seq<char> {
    ".fini_array."@
}

/// The section name the scheduler produces for a supported family,
/// phase and priority.  For an unsupported family the scheduler
/// produces an error instead; the empty sequence here is never the
/// name of any section.
pub open spec fn section_name_spec(family: PlatformFamily, phase: Phase, p: int) -> Seq<char> {
    match family {
        PlatformFamily::WindowsLike => match phase {
            Phase::Construct => windows_construct_prefix() + pad5(p),
            Phase::Destruct => windows_destruct_prefix() + pad5(p),
        },
        PlatformFamily::AppleLike => match phase {
            Phase::Construct => apple_construct_section(),
            Phase::Destruct => apple_destruct_section(),
        },
        PlatformFamily::UnixLike => match phase {
            Phase::Construct => unix_construct_prefix() + pad5(p),
            Phase::Destruct => unix_destruct_prefix() + pad5(p),
        },
        PlatformFamily::Unsupported => Seq::empty(),
    }
}

/// One decimal digit as a string slice.
fn digit_str(d: u16) -> (r: &'static str)
    requires
        d < 10,
    ensures
        r@ == seq![digit_char(d as int)],
{
    let r: &'static str = if d == 0 {
        "0"
    } else if d == 1 {
        "1"
    } else if d == 2 {
        "2"
    } else if d == 3 {
        "3"
    } else if d == 4 {
        "4"
    } else if d == 5 {
        "5"
    } else if d == 6 {
        "6"
    } else if d == 7 {
        "7"
    } else if d == 8 {
        "8"
    } else {
        "9"
    };
    proof {
        reveal_strlit("0");
        reveal_strlit("1");
        reveal_strlit("2");
        reveal_strlit("3");
        reveal_strlit("4");
        reveal_strlit("5");
        reveal_strlit("6");
        reveal_strlit("7");
        reveal_strlit("8");
        reveal_strlit("9");
        assert(r@ =~= seq![digit_char(d as int)]);
    }
    r
}

/// The five-digit, zero-padded decimal encoding of a priority.
pub fn encode_priority(p: u16) -> (r: String)
    ensures
        r@ == pad5(p as int),
{
    let d0: u16 = p / 10000;
    let d1: u16 = (p % 10000) / 1000;
    let d2: u16 = (p % 1000) / 100;
    let d3: u16 = (p % 100) / 10;
    let d4: u16 = p % 10;
    let mut r = String::new();
    r.append(digit_str(d0));
    r.append(digit_str(d1));
    r.append(digit_str(d2));
    r.append(digit_str(d3));
    r.append(digit_str(d4));
    proof {
        assert(r@ =~= pad5(p as int));
    }
    r
}

/// The section name for one registration entry: a zero-padded
/// priority suffix on the Windows-like and Unix-like families, the
/// fixed per-phase pair on the Apple-like family, and a build-time
/// error on an unsupported family.
pub fn section_name(family: PlatformFamily, phase: Phase, priority: u16) -> (r: Result<
    String,
    PlatformError,
>)
    ensures
        r matches Ok(s) ==> s@ == section_name_spec(family, phase, priority as int),
        r is Ok <==> family.is_supported(),
        r is Err <==> family is Unsupported,
{
    match family {
        PlatformFamily::WindowsLike => {
            let mut s = match phase {
                Phase::Construct => String::from_str(".CRT$XCU"),
                Phase::Destruct => String::from_str(".CRT$XPTZ"),
            };
            s.append(encode_priority(priority).as_str());
            Ok(s)
        },
        PlatformFamily::AppleLike => match phase {
            Phase::Construct => Ok(String::from_str("__DATA,__mod_init_func")),
            Phase::Destruct => Ok(String::from_str("__DATA,__mod_term_func")),
        },
        PlatformFamily::UnixLike => {
            let mut s = match phase {
                Phase::Construct => String::from_str(".init_array."),
                Phase::Destruct => String::from_str(".fini_array."),
            };
            s.append(encode_priority(priority).as_str());
            Ok(s)
        },
        PlatformFamily::Unsupported => Err(PlatformError::UnsupportedFamily),
    }
}

proof fn lemma_digit_char_order(a: int, b: int)
    requires
        0 <= a < 10,
        0 <= b < 10,
        a < b,
    ensures
        (digit_char(a) as int) < (digit_char(b) as int),
{
}

/// Strict lexicographic order is irreflexive.
proof fn lemma_lex_irreflexive(a: Seq<char>)
    ensures
        !lex_less(a, a),
    decreases a.len(),
{
    if a.len() > 0 {
        lemma_lex_irreflexive(a.drop_first());
    }
}

/// Appending one common prefix to both sides preserves strict
/// lexicographic order.
proof fn lemma_lex_common_prefix(s: Seq<char>, a: Seq<char>, b: Seq<char>)
    requires
        lex_less(a, b),
    ensures
        lex_less(s + a, s + b),
    decreases s.len(),
{
    if s.len() == 0 {
        assert(s + a =~= a);
        assert(s + b =~= b);
    } else {
        lemma_lex_common_prefix(s.drop_first(), a, b);
        assert((s + a).drop_first() =~= s.drop_first() + a);
        assert((s + b).drop_first() =~= s.drop_first() + b);
        assert((s + a)[0] == s[0]);
        assert((s + b)[0] == s[0]);
    }
}

proof fn lemma_lex_pad1(x: int, y: int)
    requires
        0 <= x,
        0 <= y,
        x % 10 < y % 10,
    ensures
        lex_less(pad1(x), pad1(y)),
{
    lemma_digit_char_order(x % 10, y % 10);
    assert(pad1(x)[0] == digit_char(x % 10));
    assert(pad1(y)[0] == digit_char(y % 10));
}

proof fn lemma_lex_pad2(x: int, y: int)
    requires
        0 <= x,
        0 <= y,
        x % 100 < y % 100,
    ensures
        lex_less(pad2(x), pad2(y)),
{
    let dx = (x % 100) / 10;
    let dy = (y % 100) / 10;
    vstd::arithmetic::div_mod::lemma_mod_mod(x, 10, 10);
    vstd::arithmetic::div_mod::lemma_mod_mod(y, 10, 10);
    vstd::arithmetic::div_mod::lemma_fundamental_div_mod(x % 100, 10);
    vstd::arithmetic::div_mod::lemma_fundamental_div_mod(y % 100, 10);
    assert(x % 100 == dx * 10 + x % 10);
    assert(y % 100 == dy * 10 + y % 10);
    assert(pad2(x)[0] == digit_char(dx));
    assert(pad2(y)[0] == digit_char(dy));
    if dx < dy {
        lemma_digit_char_order(dx, dy);
    } else {
        assert(dx == dy);
        assert(x % 10 < y % 10);
        lemma_lex_pad1(x, y);
        assert(pad2(x).drop_first() =~= pad1(x));
        assert(pad2(y).drop_first() =~= pad1(y));
    }
}

proof fn lemma_lex_pad3(x: int, y: int)
    requires
        0 <= x,
        0 <= y,
        x % 1000 < y % 1000,
    ensures
        lex_less(pad3(x), pad3(y)),
{
    let dx = (x % 1000) / 100;
    let dy = (y % 1000) / 100;
    vstd::arithmetic::div_mod::lemma_mod_mod(x, 100, 10);
    vstd::arithmetic::div_mod::lemma_mod_mod(y, 100, 10);
    vstd::arithmetic::div_mod::lemma_fundamental_div_mod(x % 1000, 100);
    vstd::arithmetic::div_mod::lemma_fundamental_div_mod(y % 1000, 100);
    assert(x % 1000 == dx * 100 + x % 100);
    assert(y % 1000 == dy * 100 + y % 100);
    assert(pad3(x)[0] == digit_char(dx));
    assert(pad3(y)[0] == digit_char(dy));
    if dx < dy {
        lemma_digit_char_order(dx, dy);
    } else {
        assert(dx == dy);
        assert(x % 100 < y % 100);
        lemma_lex_pad2(x, y);
        assert(pad3(x).drop_first() =~= pad2(x));
        assert(pad3(y).drop_first() =~= pad2(y));
    }
}

proof fn lemma_lex_pad4(x: int, y: int)
    requires
        0 <= x,
        0 <= y,
        x % 10000 < y % 10000,
    ensures
        lex_less(pad4(x), pad4(y)),
{
    let dx = (x % 10000) / 1000;
    let dy = (y % 10000) / 1000;
    vstd::arithmetic::div_mod::lemma_mod_mod(x, 1000, 10);
    vstd::arithmetic::div_mod::lemma_mod_mod(y, 1000, 10);
    vstd::arithmetic::div_mod::lemma_fundamental_div_mod(x % 10000, 1000);
    vstd::arithmetic::div_mod::lemma_fundamental_div_mod(y % 10000, 1000);
    assert(x % 10000 == dx * 1000 + x % 1000);
    assert(y % 10000 == dy * 1000 + y % 1000);
    assert(pad4(x)[0] == digit_char(dx));
    assert(pad4(y)[0] == digit_char(dy));
    if dx < dy {
        lemma_digit_char_order(dx, dy);
    } else {
        assert(dx == dy);
        assert(x % 1000 < y % 1000);
        lemma_lex_pad3(x, y);
        assert(pad4(x).drop_first() =~= pad3(x));
        assert(pad4(y).drop_first() =~= pad3(y));
    }
}

/// Zero-padded decimal encoding is strictly monotonic: a smaller
/// priority encodes to a lexically smaller five-digit string.
pub proof fn lemma_pad5_lexical_order(x: int, y: int)
    requires
        0 <= x,
        x < y,
        y <= 65535,
    ensures
        lex_less(pad5(x), pad5(y)),
{
    let dx = x / 10000;
    let dy = y / 10000;
    vstd::arithmetic::div_mod::lemma_fundamental_div_mod(x, 10000);
    vstd::arithmetic::div_mod::lemma_fundamental_div_mod(y, 10000);
    assert(x == dx * 10000 + x % 10000);
    assert(y == dy * 10000 + y % 10000);
    assert(pad5(x)[0] == digit_char(dx));
    assert(pad5(y)[0] == digit_char(dy));
    if dx < dy {
        lemma_digit_char_order(dx, dy);
    } else {
        assert(dx == dy);
        assert(x % 10000 < y % 10000);
        lemma_lex_pad4(x, y);
        assert(pad5(x).drop_first() =~= pad4(x));
        assert(pad5(y).drop_first() =~= pad4(y));
    }
}

/// Zero-padded decimal encoding is injective over the priority range.
pub proof fn lemma_pad5_injective(x: int, y: int)
    requires
        0 <= x <= 65535,
        0 <= y <= 65535,
        pad5(x) == pad5(y),
    ensures
        x == y,
{
    if x < y {
        lemma_pad5_lexical_order(x, y);
        lemma_lex_irreflexive(pad5(x));
    } else if y < x {
        lemma_pad5_lexical_order(y, x);
        lemma_lex_irreflexive(pad5(x));
    }
}

/// On the families with priority control, the zero-padded encoding
/// makes the loader's lexical order on section names agree with the
/// numeric order of priorities, within one phase.
pub proof fn lemma_section_name_lexical_order(
    family: PlatformFamily,
    phase: Phase,
    p1: int,
    p2: int,
)
    requires
        family is WindowsLike || family is UnixLike,
        0 <= p1,
        p1 < p2,
        p2 <= 65535,
    ensures
        lex_less(section_name_spec(family, phase, p1), section_name_spec(family, phase, p2)),
{
    lemma_pad5_lexical_order(p1, p2);
    match family {
        PlatformFamily::WindowsLike => match phase {
            Phase::Construct => {
                lemma_lex_common_prefix(windows_construct_prefix(), pad5(p1), pad5(p2));
            },
            Phase::Destruct => {
                lemma_lex_common_prefix(windows_destruct_prefix(), pad5(p1), pad5(p2));
            },
        },
        PlatformFamily::UnixLike => match phase {
            Phase::Construct => {
                lemma_lex_common_prefix(unix_construct_prefix(), pad5(p1), pad5(p2));
            },
            Phase::Destruct => {
                lemma_lex_common_prefix(unix_destruct_prefix(), pad5(p1), pad5(p2));
            },
        },
        _ => {},
    }
}

/// On the families with priority control the scheduler is injective:
/// two registrations share a section name only if they are for the
/// same phase and the same priority.
pub proof fn lemma_section_name_injective(
    family: PlatformFamily,
    ph1: Phase,
    ph2: Phase,
    p1: int,
    p2: int,
)
    requires
        family is WindowsLike || family is UnixLike,
        0 <= p1 <= 65535,
        0 <= p2 <= 65535,
        section_name_spec(family, ph1, p1) == section_name_spec(family, ph2, p2),
    ensures
        ph1 == ph2,
        p1 == p2,
{
    reveal_strlit(".CRT$XCU");
    reveal_strlit(".CRT$XPTZ");
    reveal_strlit(".init_array.");
    reveal_strlit(".fini_array.");
    let n1 = section_name_spec(family, ph1, p1);
    let n2 = section_name_spec(family, ph2, p2);
    if ph1 != ph2 {
        match family {
            PlatformFamily::WindowsLike => {
                // The two prefixes have different lengths, so the
                // names cannot coincide.
                assert(n1.len() != n2.len());
            },
            PlatformFamily::UnixLike => {
                // Both prefixes have length 12 but differ at index 1.
                assert(n1[1] != n2[1]);
            },
            _ => {},
        }
    } else {
        let pre = match family {
            PlatformFamily::WindowsLike => match ph1 {
                Phase::Construct => windows_construct_prefix(),
                Phase::Destruct => windows_destruct_prefix(),
            },
            _ => match ph1 {
                Phase::Construct => unix_construct_prefix(),
                Phase::Destruct => unix_destruct_prefix(),
            },
        };
        let k = pre.len() as int;
        assert(n1 == pre + pad5(p1));
        assert(n2 == pre + pad5(p2));
        assert(pad5(p1) =~= n1.subrange(k, n1.len() as int));
        assert(pad5(p2) =~= n2.subrange(k, n2.len() as int));
        lemma_pad5_injective(p1, p2);
    }
}

/// On the Apple-like family priority is ignored by design: for a
/// given phase every priority maps to the same fixed section name.
pub proof fn lemma_apple_sections_fixed(phase: Phase, p1: int, p2: int)
    ensures
        section_name_spec(PlatformFamily::AppleLike, phase, p1) == section_name_spec(
            PlatformFamily::AppleLike,
            phase,
            p2,
        ),
{
}

} // verus!
