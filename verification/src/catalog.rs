use vstd::prelude::*;
use crate::path::{digits_val, first_slash, parse_children, parse_path};

verus! {

/// How many account templates the catalog holds.
pub const TEMPLATE_COUNT: usize = 11;

/// The template text at each catalog position: an account-path prefix whose
/// trailing index is filled in per branch (receive or change).
pub open spec fn template_spec(i: int) -> Seq<char> {
    if i == 0 {
        "m/44'/0'/0'/"@
    } else if i == 1 {
        "m/48'/0'/0'/"@
    } else if i == 2 {
        "m/49'/0'/0'/"@
    } else if i == 3 {
        "m/84'/0'/0'/"@
    } else if i == 4 {
        "m/47'/0'/0'/"@
    } else if i == 5 {
        "m/84'/0'/2147483644'/"@
    } else if i == 6 {
        "m/84'/0'/2147483645'/"@
    } else if i == 7 {
        "m/44'/0'/2147483646'/"@
    } else if i == 8 {
        "m/49'/0'/2147483646'/"@
    } else if i == 9 {
        "m/84'/0'/2147483646'/"@
    } else {
        "m/86'/0'/0'/"@
    }
}

/// The fixed catalog of account-path templates: one candidate wallet is
/// probed per entry, covering the common account and script-type
/// conventions.
pub fn derivation_paths() -> (r: Vec<&'static str>)
    ensures
        r@.len() == TEMPLATE_COUNT,
        forall|i: int| 0 <= i < r@.len() ==> (#[trigger] r@[i])@ == template_spec(i),
{
    let mut v: Vec<&'static str> = Vec::new();
    v.push("m/44'/0'/0'/");
    v.push("m/48'/0'/0'/");
    v.push("m/49'/0'/0'/");
    v.push("m/84'/0'/0'/");
    v.push("m/47'/0'/0'/");
    v.push("m/84'/0'/2147483644'/");
    v.push("m/84'/0'/2147483645'/");
    v.push("m/44'/0'/2147483646'/");
    v.push("m/49'/0'/2147483646'/");
    v.push("m/84'/0'/2147483646'/");
    v.push("m/86'/0'/0'/");
    v
}

/// Both branch paths of the first four templates parse.
#[verifier::rlimit(60)]
proof fn lemma_templates_parse_first()
    ensures
        parse_path("m/44'/0'/0'/"@ + "0"@) is Some,
        parse_path("m/44'/0'/0'/"@ + "1"@) is Some,
        parse_path("m/48'/0'/0'/"@ + "0"@) is Some,
        parse_path("m/48'/0'/0'/"@ + "1"@) is Some,
        parse_path("m/49'/0'/0'/"@ + "0"@) is Some,
        parse_path("m/49'/0'/0'/"@ + "1"@) is Some,
        parse_path("m/84'/0'/0'/"@ + "0"@) is Some,
        parse_path("m/84'/0'/0'/"@ + "1"@) is Some,
{
    reveal_strlit("m/44'/0'/0'/");
    reveal_strlit("m/48'/0'/0'/");
    reveal_strlit("m/49'/0'/0'/");
    reveal_strlit("m/84'/0'/0'/");
    reveal_strlit("0");
    reveal_strlit("1");
    reveal_with_fuel(parse_children, 6);
    reveal_with_fuel(first_slash, 6);
    reveal_with_fuel(digits_val, 4);
}

/// Both branch paths of the remaining short templates parse.
#[verifier::rlimit(60)]
proof fn lemma_templates_parse_short()
    ensures
        parse_path("m/47'/0'/0'/"@ + "0"@) is Some,
        parse_path("m/47'/0'/0'/"@ + "1"@) is Some,
        parse_path("m/86'/0'/0'/"@ + "0"@) is Some,
        parse_path("m/86'/0'/0'/"@ + "1"@) is Some,
{
    reveal_strlit("m/47'/0'/0'/");
    reveal_strlit("m/86'/0'/0'/");
    reveal_strlit("0");
    reveal_strlit("1");
    reveal_with_fuel(parse_children, 6);
    reveal_with_fuel(first_slash, 6);
    reveal_with_fuel(digits_val, 4);
}

/// Both branch paths of the first alternate-account template parse.
#[verifier::rlimit(100)]
proof fn lemma_template_parse_alt_a()
    ensures
        parse_path("m/84'/0'/2147483644'/"@ + "0"@) is Some,
        parse_path("m/84'/0'/2147483644'/"@ + "1"@) is Some,
{
    reveal_strlit("m/84'/0'/2147483644'/");
    reveal_strlit("0");
    reveal_strlit("1");
    reveal_with_fuel(parse_children, 5);
    reveal_with_fuel(first_slash, 12);
    reveal_with_fuel(digits_val, 11);
}

/// Both branch paths of the second alternate-account template parse.
#[verifier::rlimit(100)]
proof fn lemma_template_parse_alt_b()
    ensures
        parse_path("m/84'/0'/2147483645'/"@ + "0"@) is Some,
        parse_path("m/84'/0'/2147483645'/"@ + "1"@) is Some,
{
    reveal_strlit("m/84'/0'/2147483645'/");
    reveal_strlit("0");
    reveal_strlit("1");
    reveal_with_fuel(parse_children, 5);
    reveal_with_fuel(first_slash, 12);
    reveal_with_fuel(digits_val, 11);
}

/// Both branch paths of the third alternate-account template parse.
#[verifier::rlimit(100)]
proof fn lemma_template_parse_alt_c()
    ensures
        parse_path("m/44'/0'/2147483646'/"@ + "0"@) is Some,
        parse_path("m/44'/0'/2147483646'/"@ + "1"@) is Some,
{
    reveal_strlit("m/44'/0'/2147483646'/");
    reveal_strlit("0");
    reveal_strlit("1");
    reveal_with_fuel(parse_children, 5);
    reveal_with_fuel(first_slash, 12);
    reveal_with_fuel(digits_val, 11);
}

/// Both branch paths of the fourth alternate-account template parse.
#[verifier::rlimit(100)]
proof fn lemma_template_parse_alt_d()
    ensures
        parse_path("m/49'/0'/2147483646'/"@ + "0"@) is Some,
        parse_path("m/49'/0'/2147483646'/"@ + "1"@) is Some,
{
    reveal_strlit("m/49'/0'/2147483646'/");
    reveal_strlit("0");
    reveal_strlit("1");
    reveal_with_fuel(parse_children, 5);
    reveal_with_fuel(first_slash, 12);
    reveal_with_fuel(digits_val, 11);
}

/// Both branch paths of the fifth alternate-account template parse.
#[verifier::rlimit(100)]
proof fn lemma_template_parse_alt_e()
    ensures
        parse_path("m/84'/0'/2147483646'/"@ + "0"@) is Some,
        parse_path("m/84'/0'/2147483646'/"@ + "1"@) is Some,
{
    reveal_strlit("m/84'/0'/2147483646'/");
    reveal_strlit("0");
    reveal_strlit("1");
    reveal_with_fuel(parse_children, 5);
    reveal_with_fuel(first_slash, 12);
    reveal_with_fuel(digits_val, 11);
}

/// Every catalog template composes into valid receive and change paths:
/// planning the catalog never fails.
pub proof fn lemma_catalog_templates_parse()
    ensures
        forall|i: int|
            0 <= i < TEMPLATE_COUNT ==> parse_path(#[trigger] template_spec(i) + "0"@) is Some
                && parse_path(template_spec(i) + "1"@) is Some,
{
    lemma_templates_parse_first();
    lemma_templates_parse_short();
    lemma_template_parse_alt_a();
    lemma_template_parse_alt_b();
    lemma_template_parse_alt_c();
    lemma_template_parse_alt_d();
    lemma_template_parse_alt_e();
}

} // verus!
