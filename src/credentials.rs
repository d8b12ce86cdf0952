use vstd::prelude::*;

use crate::error::{FormatError, VapixError};
use crate::text::{trim, trim_end, trim_start, trim_white_space};

verus! {

/// A user name and password for HTTP Basic authentication.
#[derive(Clone, Debug)]
pub struct Credentials {
    pub username: String,
    pub password: String,
}

/// How the credential service's process ended.
#[derive(Clone, Copy, Debug, PartialEq, Eq)]
pub struct ExitOutcome {
    /// The process reported success.
    pub success: bool,
    /// Its exit code, where the process exited with one.
    pub code: Option<i32>,
}

/// The reply starts with `('`.
pub open spec fn has_prefix(t: Seq<char>) -> bool {
    t.len() >= 2 && t[0] == '(' && t[1] == '\''
}

/// What follows the two characters of the prefix ends with `',)`.
pub open spec fn has_suffix(t: Seq<char>) -> bool {
    t.len() >= 5 && t[t.len() - 3] == '\'' && t[t.len() - 2] == ',' && t[t.len() - 1] == ')'
}

/// The text between `('` and `',)`.
pub open spec fn payload(t: Seq<char>) -> Seq<char> {
    t.subrange(2, t.len() - 3)
}

/// What a reply, already trimmed, gives: the user name before the first `:`
/// of the payload and the password after it, or the first rule it breaks.
pub open spec fn reply_fields(t: Seq<char>) -> Result<(Seq<char>, Seq<char>), FormatError> {
    if !has_prefix(t) {
        Err(FormatError::MissingPrefix)
    } else if !has_suffix(t) {
        Err(FormatError::MissingSuffix)
    } else {
        let body = payload(t);
        match body.index_of_first(':') {
            None => Err(FormatError::MissingSeparator),
            Some(k) => if k == 0 {
                Err(FormatError::EmptyUsername)
            } else if k + 1 == body.len() {
                Err(FormatError::EmptyPassword)
            } else {
                Ok((body.subrange(0, k), body.subrange(k + 1, body.len() as int)))
            },
        }
    }
}

/// `r` holds the fields that `fields` gives, or the same error.
pub open spec fn parsed_as(
    r: Result<Credentials, FormatError>,
    fields: Result<(Seq<char>, Seq<char>), FormatError>,
) -> bool {
    match fields {
        Ok((u, p)) => r is Ok && r->Ok_0.username@ == u && r->Ok_0.password@ == p,
        Err(e) => r == Err::<Credentials, FormatError>(e),
    }
}

/// What the credential service's run gives: a failed run is an invocation
/// error whatever it printed; a successful one gives what its trimmed standard
/// output reads as.
pub open spec fn service_result(
    r: Result<Credentials, VapixError>,
    exit: ExitOutcome,
    stdout: Seq<char>,
) -> bool {
    if !exit.success {
        r == Err::<Credentials, VapixError>(VapixError::IpcInvocation { code: exit.code })
    } else {
        match reply_fields(trim(stdout)) {
            Ok((u, p)) => r is Ok && r->Ok_0.username@ == u && r->Ok_0.password@ == p,
            Err(e) => r == Err::<Credentials, VapixError>(VapixError::CredentialFormat(e)),
        }
    }
}

/// The reply that carries `user` and `pass`.
pub open spec fn reply_text(user: Seq<char>, pass: Seq<char>) -> Seq<char> {
    seq!['(', '\''] + user + seq![':'] + pass + seq!['\'', ',', ')']
}

/// A reply built from a non-empty user name without `:` and a non-empty
/// password reads back as that user name and password; the password may hold
/// `:` of its own.
pub proof fn lemma_reply_round_trip(user: Seq<char>, pass: Seq<char>)
    requires
        user.len() > 0,
        pass.len() > 0,
        !user.contains(':'),
    ensures
        reply_fields(trim(reply_text(user, pass))) == Ok::<_, FormatError>((user, pass)),
{
    let t = reply_text(user, pass);
    let n = t.len();
    assert(t[0] == '(');
    assert(t[n - 1] == ')');
    assert(trim_start(t) == t);
    assert(trim_end(t) == t);
    let body = payload(t);
    assert(body =~= user + seq![':'] + pass);
    let u = user.len() as int;
    assert(body[u] == ':');
    body.index_of_first_ensures(':');
    let k = body.index_of_first(':')->Some_0;
    if k < u {
        assert(body[k] == user[k]);
    }
    assert(k == u);
    assert(body.subrange(0, k) =~= user);
    assert(body.subrange(k + 1, body.len() as int) =~= pass);
}

impl Credentials {
    /// Both fields are non-empty and the user name holds no `:`.
    pub open spec fn wf(&self) -> bool {
        &&& self.username@.len() > 0
        &&& self.password@.len() > 0
        &&& !self.username@.contains(':')
    }

    /// Reads a reply that has no white space at either end.
    pub fn parse_trimmed(t: &str) -> (r: Result<Credentials, FormatError>)
        ensures
            parsed_as(r, reply_fields(t@)),
            r is Ok ==> r->Ok_0.wf(),
    {
        let n = t.unicode_len();
        if n < 2 || t.get_char(0) != '(' || t.get_char(1) != '\'' {
            return Err(FormatError::MissingPrefix);
        }
        if n < 5 || t.get_char(n - 3) != '\'' || t.get_char(n - 2) != ',' || t.get_char(n - 1)
            != ')' {
            return Err(FormatError::MissingSuffix);
        }
        let end: usize = n - 3;
        let ghost body = payload(t@);
        let mut k: usize = 2;
        while k < end && t.get_char(k) != ':'
            invariant
                n == t@.len(),
                end == n - 3,
                body == t@.subrange(2, end as int),
                2 <= k <= end,
                forall|j: int| 0 <= j < k - 2 ==> body[j] != ':',
            decreases end - k,
        {
            k = k + 1;
        }
        proof {
            body.index_of_first_ensures(':');
        }
        if k == end {
            assert(!body.contains(':'));
            return Err(FormatError::MissingSeparator);
        }
        assert(body[k - 2] == ':');
        assert(body.index_of_first(':') == Some((k - 2) as int));
        if k == 2 {
            return Err(FormatError::EmptyUsername);
        }
        if k + 1 == end {
            return Err(FormatError::EmptyPassword);
        }
        let user = t.substring_char(2, k);
        let pass = t.substring_char(k + 1, end);
        assert(user@ =~= body.subrange(0, k - 2));
        assert(pass@ =~= body.subrange(k - 1, body.len() as int));
        Ok(Credentials { username: String::from_str(user), password: String::from_str(pass) })
    }

    /// Reads the credential service's reply: white space at either end is
    /// ignored, the rest must read `('<username>:<password>',)`, and the
    /// password is everything after the first `:`.
    pub fn parse(s: &str) -> (r: Result<Credentials, FormatError>)
        ensures
            parsed_as(r, reply_fields(trim(s@))),
            r is Ok ==> r->Ok_0.wf(),
    {
        Credentials::parse_trimmed(trim_white_space(s))
    }

    /// Reads what the credential service's run gave: its exit and its standard
    /// output.
    pub fn from_service_reply(exit: ExitOutcome, stdout: &str) -> (r: Result<
        Credentials,
        VapixError,
    >)
        ensures
            service_result(r, exit, stdout@),
            r is Ok ==> r->Ok_0.wf(),
    {
        if !exit.success {
            return Err(VapixError::IpcInvocation { code: exit.code });
        }
        match Credentials::parse(stdout) {
            Ok(c) => Ok(c),
            Err(e) => Err(VapixError::CredentialFormat(e)),
        }
    }
}

impl std::str::FromStr for Credentials {
    type Err = FormatError;

    fn from_str(s: &str) -> (r: Result<Credentials, FormatError>)
        ensures
            parsed_as(r, reply_fields(trim(s@))),
            r is Ok ==> r->Ok_0.wf(),
    {
        Credentials::parse(s)
    }
}

} // verus!
