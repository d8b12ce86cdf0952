use vstd::prelude::*;

use std::sync::atomic::{AtomicUsize, Ordering};

verus! {

/// The program that makes calls on the system message bus.
pub const BUS_CALL_PROGRAM: &'static str = "/usr/bin/gdbus";

/// The bus name of the credential-issuing service.
pub const SERVICE_NAME: &'static str = "com.axis.HTTPConf1";

/// The object on which the service issues credentials.
pub const OBJECT_PATH: &'static str = "/com/axis/HTTPConf1/VAPIXServiceAccounts1";

/// The method that issues one pair of credentials for a request name.
pub const GET_CREDENTIALS_METHOD: &'static str = "com.axis.HTTPConf1.VAPIXServiceAccounts1.GetCredentials";

/// The decimal digit for `d`, below ten.
pub open spec fn digit_char(d: nat) -> char {
    if d == 0 {
        '0'
    } else if d == 1 {
        '1'
    } else if d == 2 {
        '2'
    } else if d == 3 {
        '3'
    } else if d == 4 {
        '4'
    } else if d == 5 {
        '5'
    } else if d == 6 {
        '6'
    } else if d == 7 {
        '7'
    } else if d == 8 {
        '8'
    } else {
        '9'
    }
}

/// `n` written in decimal, without leading zeros.
pub open spec fn decimal(n: nat) -> Seq<char>
    decreases n,
{
    if n < 10 {
        seq![digit_char(n)]
    } else {
        decimal(n / 10).push(digit_char(n % 10))
    }
}

/// The name of the request drawn as number `n`: `n` followed by its decimal digits.
pub open spec fn request_name_of(n: nat) -> Seq<char> {
    seq!['n'] + decimal(n)
}

/// Relies on the `Display` impl of `usize` (through `ToString`): an integer is
/// written in decimal, without sign or leading zeros.
#[verifier::external_body]
fn decimal_text(n: usize) -> (r: String)
    ensures
        r@ == decimal(n as nat),
{
    n.to_string()
}

/// The name of the request drawn as number `n`.
pub fn request_name(n: usize) -> (r: String)
    ensures
        r@ == request_name_of(n as nat),
{
    let mut name = String::from_str("n");
    proof {
        reveal_strlit("n");
    }
    let digits = decimal_text(n);
    name.append(digits.as_str());
    assert(name@ =~= request_name_of(n as nat));
    name
}

proof fn lemma_decimal_len(n: nat)
    ensures
        decimal(n).len() >= 1,
        n >= 10 ==> decimal(n).len() >= 2,
    decreases n,
{
    if n >= 10 {
        lemma_decimal_len(n / 10);
    }
}

/// Two numbers with the same decimal text are the same number.
pub proof fn lemma_decimal_injective(a: nat, b: nat)
    requires
        decimal(a) == decimal(b),
    ensures
        a == b,
    decreases a,
{
    lemma_decimal_len(a);
    lemma_decimal_len(b);
    if a >= 10 && b >= 10 {
        let da = decimal(a / 10);
        let db = decimal(b / 10);
        assert(decimal(a).drop_last() =~= da);
        assert(decimal(b).drop_last() =~= db);
        lemma_decimal_injective(a / 10, b / 10);
        assert(decimal(a).last() == digit_char(a % 10));
        assert(decimal(b).last() == digit_char(b % 10));
    } else if a < 10 && b < 10 {
        assert(decimal(a)[0] == digit_char(a));
        assert(decimal(b)[0] == digit_char(b));
    }
}

/// Requests drawn as distinct numbers have distinct names.
pub proof fn lemma_request_names_distinct(a: nat, b: nat)
    requires
        a != b,
    ensures
        request_name_of(a) != request_name_of(b),
{
    if request_name_of(a) == request_name_of(b) {
        assert(request_name_of(a).drop_first() =~= decimal(a));
        assert(request_name_of(b).drop_first() =~= decimal(b));
        lemma_decimal_injective(a, b);
    }
}

/// The arguments to the bus call program that ask the credential service for
/// credentials under `name`.
pub open spec fn service_call_args(name: Seq<char>) -> Seq<Seq<char>> {
    seq![
        "call"@,
        "--system"@,
        "--dest"@,
        SERVICE_NAME@,
        "--object-path"@,
        OBJECT_PATH@,
        "--method"@,
        GET_CREDENTIALS_METHOD@,
        name,
    ]
}

/// The arguments to [`BUS_CALL_PROGRAM`] that ask the credential service for
/// credentials under `name`.
pub fn credentials_call_args(name: &str) -> (r: Vec<String>)
    ensures
        r@.map_values(|a: String| a@) == service_call_args(name@),
{
    let mut args: Vec<String> = Vec::new();
    args.push(String::from_str("call"));
    args.push(String::from_str("--system"));
    args.push(String::from_str("--dest"));
    args.push(String::from_str(SERVICE_NAME));
    args.push(String::from_str("--object-path"));
    args.push(String::from_str(OBJECT_PATH));
    args.push(String::from_str("--method"));
    args.push(String::from_str(GET_CREDENTIALS_METHOD));
    args.push(String::from_str(name));
    assert(args@.map_values(|a: String| a@) =~= service_call_args(name@));
    args
}

/// Draws request numbers for the credential service, each at most once while
/// the count stays below `usize::MAX`; it may be shared by concurrent callers.
pub struct RequestCounter {
    next: AtomicUsize,
}

impl RequestCounter {
    /// A counter whose first number is zero.
    pub fn new() -> (r: RequestCounter) {
        RequestCounter { next: AtomicUsize::new(0) }
    }

    /// Draws the next number and names a request after it.
    pub fn next_request_name(&self) -> (r: String)
        ensures
            exists|n: nat| r@ == request_name_of(n),
    {
        let n = self.next.fetch_add(1, Ordering::Relaxed);
        request_name(n)
    }
}

} // verus!
