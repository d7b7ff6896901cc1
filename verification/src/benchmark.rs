//! The workload of the comparison of schemes: synthetic claims and
//! disclosures, the sizes at which presentations are measured, and the names
//! under which measurements are filed.

use vstd::prelude::*;
use vstd::string::StringExecFns;
use crate::common_data::CLAIMS;
use crate::error::SdError;
use crate::json::{has_key, inserted, JsonMap, JsonModel, JsonValue, Members};

verus! {

/// The measurement of the time that making an instance of a scheme takes.
pub const INITIALIZATION_DURATION: &'static str = "initialization_duration";

/// The measurement of the length of the issuer's keys.
pub const ISSUER_KEYPAIR_LENGTH: &'static str = "issuer_keypair_length";

/// The measurement of the time that issuing a credential takes.
pub const VC_ISSUANCE_DURATION: &'static str = "vc_issuance_duration";

/// The measurement of the time that issuing a presentation takes.
pub const VP_ISSUANCE_DURATION: &'static str = "vp_issuance_duration";

/// The measurement of the time that verifying a credential takes.
pub const VC_VERIFICATION_DURATION: &'static str = "vc_verification_duration";

/// The measurement of the time that verifying a presentation takes.
pub const VP_VERIFICATION_DURATION: &'static str = "vp_verification_duration";

/// The measurement of the length of the envelope of a credential.
pub const VC_JWT_LENGTH: &'static str = "vc_jwt_length";

/// The measurement of the length of the envelope of a presentation.
pub const VP_JWT_LENGTH: &'static str = "vp_jwt_length";

/// The character of a decimal digit.
pub open spec fn digit_char(d: nat) -> char {
    if d == 0 {
        '0'
    } else if d == 1 {
        '1'
    } else if d == 2 {
        '2'
    } else if d == 3 {
        '3'
    } else if d == 4 {
        '4'
    } else if d == 5 {
        '5'
    } else if d == 6 {
        '6'
    } else if d == 7 {
        '7'
    } else if d == 8 {
        '8'
    } else {
        '9'
    }
}

/// The decimal text of a number, without leading zeros.
pub open spec fn decimal(n: nat) -> Seq<char>
    decreases n,
{
    if n < 10 {
        seq![digit_char(n)]
    } else {
        decimal(n / 10).push(digit_char(n % 10))
    }
}

/// The key of the synthetic claim with the given number.
pub open spec fn mock_key(number: nat) -> Seq<char> {
    "Claim Key "@ + decimal(number)
}

/// The value of the synthetic claim with the given number.
pub open spec fn mock_value(number: nat) -> Seq<char> {
    "Claim Value "@ + decimal(number)
}

/// The synthetic claims with the numbers from 1 to `count`, in order.
pub open spec fn mock_claims(count: nat) -> Members {
    Seq::new(
        count,
        |i: int| (mock_key((i + 1) as nat), JsonModel::Text(mock_value((i + 1) as nat))),
    )
}

/// The keys of the synthetic claims with the numbers from 1 to `count`.
pub open spec fn mock_disclosures(count: nat) -> Seq<Seq<char>> {
    Seq::new(count, |i: int| mock_key((i + 1) as nat))
}

/// The numbers of disclosed claims at which presentations of a credential of
/// `claims` claims are measured: from 1 on in steps of a tenth of `claims`,
/// as long as they do not exceed it. There are none below ten claims.
pub open spec fn disclosure_counts(claims: nat) -> Seq<nat> {
    if claims < 10 {
        Seq::empty()
    } else {
        let step = claims as int / 10;
        Seq::new(((claims - 1) / step + 1) as nat, |k: int| (1 + k * step) as nat)
    }
}

/// The name of the file of a measurement of presentations at a size.
pub open spec fn metric_name(claims: nat, metric: Seq<char>) -> Seq<char> {
    decimal(claims) + "_"@ + metric
}

/// The text of a decimal digit.
fn digit_text(d: usize) -> (text: &'static str)
    requires
        d < 10,
    ensures
        text@ == seq![digit_char(d as nat)],
{
    proof {
        reveal_strlit("0");
        reveal_strlit("1");
        reveal_strlit("2");
        reveal_strlit("3");
        reveal_strlit("4");
        reveal_strlit("5");
        reveal_strlit("6");
        reveal_strlit("7");
        reveal_strlit("8");
        reveal_strlit("9");
    }
    let text = if d == 0 {
        "0"
    } else if d == 1 {
        "1"
    } else if d == 2 {
        "2"
    } else if d == 3 {
        "3"
    } else if d == 4 {
        "4"
    } else if d == 5 {
        "5"
    } else if d == 6 {
        "6"
    } else if d == 7 {
        "7"
    } else if d == 8 {
        "8"
    } else {
        "9"
    };
    assert(text@ =~= seq![digit_char(d as nat)]);
    text
}

/// The decimal text of a number.
pub fn decimal_text(n: usize) -> (text: String)
    ensures
        text@ == decimal(n as nat),
    decreases n,
{
    if n < 10 {
        String::from_str(digit_text(n))
    } else {
        let mut text = decimal_text(n / 10);
        text.append(digit_text(n % 10));
        assert(text@ =~= decimal(n as nat));
        text
    }
}

/// Different numbers have different decimal texts.
pub proof fn lemma_decimal_injective(a: nat, b: nat)
    requires
        decimal(a) == decimal(b),
    ensures
        a == b,
    decreases a,
{
    lemma_decimal_length(a);
    lemma_decimal_length(b);
    if a < 10 && b < 10 {
        assert(decimal(a)[0] == digit_char(a));
        assert(decimal(b)[0] == digit_char(b));
    } else if a < 10 {
        lemma_decimal_length(b / 10);
    } else if b < 10 {
        lemma_decimal_length(a / 10);
    } else {
        let x = decimal(a / 10);
        let y = decimal(b / 10);
        assert(decimal(a).last() == digit_char(a % 10));
        assert(decimal(b).last() == digit_char(b % 10));
        assert(x =~= decimal(a).drop_last());
        assert(y =~= decimal(b).drop_last());
        lemma_decimal_injective(a / 10, b / 10);
        assert(a % 10 == b % 10);
        assert(a == 10 * (a / 10) + a % 10);
        assert(b == 10 * (b / 10) + b % 10);
    }
}

/// A decimal text has a digit, and more than one from ten on.
pub proof fn lemma_decimal_length(n: nat)
    ensures
        decimal(n).len() >= 1,
        n >= 10 ==> decimal(n).len() >= 2,
        n < 10 ==> decimal(n).len() == 1,
    decreases n,
{
    if n >= 10 {
        lemma_decimal_length(n / 10);
    }
}

/// Different numbers have different synthetic keys.
pub proof fn lemma_mock_key_injective(a: nat, b: nat)
    requires
        mock_key(a) == mock_key(b),
    ensures
        a == b,
{
    let prefix = "Claim Key "@;
    assert(decimal(a) =~= mock_key(a).subrange(prefix.len() as int, mock_key(a).len() as int));
    assert(decimal(b) =~= mock_key(b).subrange(prefix.len() as int, mock_key(b).len() as int));
    lemma_decimal_injective(a, b);
}

/// The key of the synthetic claim with the given number.
pub fn mock_key_text(number: usize) -> (key: String)
    ensures
        key@ == mock_key(number as nat),
{
    String::from_str("Claim Key ").concat(decimal_text(number).as_str())
}

/// The value of the synthetic claim with the given number.
pub fn mock_value_text(number: usize) -> (value: String)
    ensures
        value@ == mock_value(number as nat),
{
    String::from_str("Claim Value ").concat(decimal_text(number).as_str())
}

/// Puts synthetic claims with the numbers from 1 to `n_mock_claims` in place
/// of the claims of the raw credential, whether or not it had any.
pub fn substitute_with_mock_claims(raw_vc: &mut JsonMap, n_mock_claims: usize) -> (outcome: Result<
    (),
    SdError,
>)
    ensures
        outcome is Ok,
        final(raw_vc)@ == inserted(
            old(raw_vc)@,
            CLAIMS@,
            JsonModel::Object(mock_claims(n_mock_claims as nat)),
        ),
{
    let ghost wanted = mock_claims(n_mock_claims as nat);
    let mut claims = JsonMap::new();
    let mut i: usize = 0;
    while i < n_mock_claims
        invariant
            i <= n_mock_claims,
            wanted == mock_claims(n_mock_claims as nat),
            claims@ == wanted.take(i as int),
        decreases n_mock_claims - i,
    {
        let key = mock_key_text(i + 1);
        let value = JsonValue::Text(mock_value_text(i + 1));
        proof {
            let before = wanted.take(i as int);
            assert forall|j: int| 0 <= j < before.len() implies before[j].0 != key@ by {
                if before[j].0 == key@ {
                    lemma_mock_key_injective((j + 1) as nat, (i + 1) as nat);
                }
            }
            assert(!has_key(before, key@));
            assert(before.push((key@, value.model())) =~= wanted.take(i + 1));
        }
        claims.insert(key, value);
        i += 1;
    }
    proof {
        assert(wanted.take(i as int) =~= wanted);
    }
    raw_vc.insert(String::from_str(CLAIMS), JsonValue::Object(claims));
    Ok(())
}

/// Replaces the disclosures by the keys of the synthetic claims with the
/// numbers from 1 to `n_disclosures`.
pub fn create_mock_disclosures(disclosures: &mut Vec<String>, n_disclosures: usize)
    ensures
        final(disclosures).deep_view() == mock_disclosures(n_disclosures as nat),
{
    disclosures.clear();
    let mut i: usize = 0;
    while i < n_disclosures
        invariant
            i <= n_disclosures,
            disclosures@.len() == i,
            forall|j: int| 0 <= j < i ==> (#[trigger] disclosures@[j])@ == mock_key((j + 1) as nat),
        decreases n_disclosures - i,
    {
        disclosures.push(mock_key_text(i + 1));
        i += 1;
    }
    proof {
        assert forall|j: int| 0 <= j < disclosures@.len() implies disclosures.deep_view()[j]
            == mock_disclosures(n_disclosures as nat)[j] by {
            assert(disclosures.deep_view()[j] == disclosures@[j]@);
        }
        assert(disclosures.deep_view() =~= mock_disclosures(n_disclosures as nat));
    }
}

/// Whether presentations are measured for credentials of this many claims:
/// at every tenth size.
pub fn measures_presentations(n_mock_claims: usize) -> (yes: bool)
    ensures
        yes == (n_mock_claims % 10 == 0),
{
    n_mock_claims % 10 == 0
}

/// The numbers of disclosed claims at which presentations of a credential of
/// `n_mock_claims` claims are measured.
pub fn presentation_sizes(n_mock_claims: usize) -> (sizes: Vec<usize>)
    ensures
        sizes@.map_values(|s: usize| s as nat) == disclosure_counts(n_mock_claims as nat),
{
    let mut sizes: Vec<usize> = Vec::new();
    if n_mock_claims < 10 {
        assert(sizes@.map_values(|s: usize| s as nat) =~= disclosure_counts(n_mock_claims as nat));
        return sizes;
    }
    let step: usize = n_mock_claims / 10;
    let ghost wanted = disclosure_counts(n_mock_claims as nat);
    let mut n_disclosures: usize = 1;
    let mut k: usize = 0;
    loop
        invariant_except_break
            step == n_mock_claims / 10,
            step >= 1,
            wanted == disclosure_counts(n_mock_claims as nat),
            n_disclosures == 1 + k * step,
            n_disclosures <= n_mock_claims,
            k < wanted.len(),
            sizes@.len() == k,
            forall|j: int| 0 <= j < k ==> (#[trigger] sizes@[j]) as nat == wanted[j],
        ensures
            sizes@.len() == wanted.len(),
            forall|j: int| 0 <= j < sizes@.len() ==> (#[trigger] sizes@[j]) as nat == wanted[j],
        decreases n_mock_claims - n_disclosures,
    {
        sizes.push(n_disclosures);
        proof {
            lemma_count_bound(n_mock_claims as nat, k as nat);
        }
        if n_mock_claims - n_disclosures < step {
            break ;
        }
        assert((k + 1) * step == k * step + step) by (nonlinear_arith);
        n_disclosures += step;
        k += 1;
    }
    assert(sizes@.map_values(|s: usize| s as nat) =~= wanted);
    sizes
}

/// The term of index `k` is the last of the sizes exactly when the next step
/// would pass the number of claims.
proof fn lemma_count_bound(claims: nat, k: nat)
    requires
        claims >= 10,
        1 + k * (claims / 10) <= claims,
    ensures
        k < disclosure_counts(claims).len(),
        claims - (1 + k * (claims / 10)) < claims / 10 ==> k + 1 == disclosure_counts(claims).len(),
        claims - (1 + k * (claims / 10)) >= claims / 10 ==> k + 1 < disclosure_counts(claims).len(),
{
    let step = claims as int / 10;
    let last = (claims - 1) / step;
    assert(k * step <= claims - 1);
    assert(k <= last) by (nonlinear_arith)
        requires
            k * step <= claims - 1,
            step >= 1,
            last == (claims - 1) / step,
    ;
    if claims - (1 + k * step) < step {
        assert(k >= last) by (nonlinear_arith)
            requires
                claims - 1 - k * step < step,
                step >= 1,
                last == (claims - 1) / step,
                k * step <= claims - 1,
        ;
    } else {
        assert(k + 1 <= last) by (nonlinear_arith)
            requires
                claims - 1 - k * step >= step,
                step >= 1,
                last == (claims - 1) / step,
        ;
    }
}

/// The name of the file of a measurement of presentations at a size: the
/// number of claims, an underscore and the name of the measurement.
pub fn metric_file_name(n_mock_claims: usize, metric: &str) -> (name: String)
    ensures
        name@ == metric_name(n_mock_claims as nat, metric@),
{
    let mut name = decimal_text(n_mock_claims);
    name.append("_");
    name.append(metric);
    name
}

} // verus!
