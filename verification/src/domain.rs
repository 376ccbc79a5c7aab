//! Domain membership on Linux hosts: reading the host and realm names, the
//! `realm join` command line, and the decisions of the membership check.
use vstd::prelude::*;

use crate::text::{
    ascii_lower, ascii_lowercase, is_ascii_text, chars_of, is_ws, lemma_trim_empty_iff_blank, eq_ignore_ascii_case, is_whitespace, spec_to_lowercase, str_eq, string_of, to_lowercase,
    trim, trimmed,
};

verus! {

/// What is needed to join a domain.
#[derive(Debug)]
pub struct JoinDomainOptions {
    pub domain: String,
    pub account: String,
    pub password: String,
    pub ou: Option<String>,
    pub client_software: Option<String>,
    pub server_software: Option<String>,
    pub membership_software: Option<String>,
    pub ssl: Option<bool>,
    pub automatic_id_mapping: Option<bool>,
}

/// The characters of an optional string, empty when absent.
pub open spec fn opt_chars(o: Option<String>) -> Seq<char> {
    match o {
        Some(s) => s@,
        None => Seq::empty(),
    }
}

/// The first `.`-separated label of a host name.
pub open spec fn short_name_spec(h: Seq<char>) -> Seq<char>
    decreases h.len(),
{
    if h.len() == 0 || h[0] == '.' {
        Seq::empty()
    } else {
        seq![h[0]] + short_name_spec(h.drop_first())
    }
}

/// The short host name is the start of the host name and holds no `.`;
/// the host name goes on, if at all, with a `.` right after it.
pub proof fn lemma_short_name_is_first_label(h: Seq<char>)
    ensures
        short_name_spec(h).len() <= h.len(),
        short_name_spec(h) == h.subrange(0, short_name_spec(h).len() as int),
        forall|i: int| 0 <= i < short_name_spec(h).len() ==> #[trigger] short_name_spec(h)[i] != '.',
        short_name_spec(h).len() < h.len() ==> h[short_name_spec(h).len() as int] == '.',
    decreases h.len(),
{
    if h.len() > 0 && h[0] != '.' {
        let t = h.drop_first();
        lemma_short_name_is_first_label(t);
        let r = short_name_spec(h);
        assert(r == seq![h[0]] + short_name_spec(t));
        assert(r =~= h.subrange(0, r.len() as int)) by {
            assert forall|i: int| 0 <= i < r.len() implies r[i] == h[i] by {
                if i > 0 {
                    assert(r[i] == short_name_spec(t)[i - 1]);
                    assert(short_name_spec(t)[i - 1] == t[i - 1]);
                }
            }
        }
        assert forall|i: int| 0 <= i < r.len() implies #[trigger] r[i] != '.' by {
            if i > 0 {
                assert(r[i] == short_name_spec(t)[i - 1]);
            }
        }
        if r.len() < h.len() {
            assert(h[r.len() as int] == t[r.len() - 1]);
        }
    } else {
        assert(short_name_spec(h) =~= h.subrange(0, 0));
    }
}

/// The host name up to its first `.`.
pub fn short_hostname(h: &str) -> (r: String)
    ensures
        r@ == short_name_spec(h@),
{
    let v = chars_of(h);
    let mut i: usize = 0;
    assert(v@.subrange(0, v.len() as int) =~= v@);
    assert(v@.subrange(0, 0) =~= Seq::<char>::empty());
    while i < v.len() && v[i] != '.'
        invariant
            i <= v.len(),
            v@ == h@,
            short_name_spec(h@) == v@.subrange(0, i as int) + short_name_spec(v@.subrange(i as int, v.len() as int)),
        decreases v.len() - i,
    {
        let ghost rest = v@.subrange(i as int, v.len() as int);
        assert(rest.drop_first() =~= v@.subrange(i + 1, v.len() as int));
        assert(v@.subrange(0, i + 1) =~= v@.subrange(0, i as int) + seq![v@[i as int]]);
        i = i + 1;
    }
    assert(v@.subrange(0, v.len() as int) =~= v@);
    string_of(&v, 0, i)
}

/// Whether `s[lo..hi]` is one of the lines of `s` (separated by `\n`).
pub open spec fn is_line(s: Seq<char>, lo: int, hi: int) -> bool {
    &&& 0 <= lo <= hi <= s.len()
    &&& (lo == 0 || s[lo - 1] == '\n')
    &&& (hi == s.len() || s[hi] == '\n')
    &&& forall|k: int| lo <= k < hi ==> s[k] != '\n'
}

/// The realm name reported by `realm list --name-only`: the first line that
/// is not blank, trimmed; `None` when every line is blank.
pub open spec fn first_line_spec(s: Seq<char>, r: Option<Seq<char>>) -> bool {
    match r {
        None => forall|lo: int, hi: int| is_line(s, lo, hi) ==> #[trigger] trim(s.subrange(lo, hi)).len() == 0,
        Some(t) => exists|lo: int, hi: int|
            {
                &&& is_line(s, lo, hi)
                &&& t == trim(s.subrange(lo, hi))
                &&& t.len() > 0
                &&& forall|lo2: int, hi2: int|
                    is_line(s, lo2, hi2) && hi2 < lo ==> #[trigger] trim(s.subrange(lo2, hi2)).len() == 0
            },
    }
}

/// Picks the first non-blank line of a command's output, trimmed.
pub fn first_nonblank_line(out: &str) -> (r: Option<String>)
    ensures
        first_line_spec(
            out@,
            match r {
                Some(t) => Some(t@),
                None => None,
            },
        ),
{
    let v = chars_of(out);
    let ghost s = v@;
    let mut start: usize = 0;
    let mut seen: bool = false;
    let mut i: usize = 0;
    while i < v.len()
        invariant
            s == v@,
            s == out@,
            start <= i <= v.len(),
            start == 0 || s[start - 1] == '\n',
            forall|k: int| start <= k < i ==> s[k] != '\n',
            seen == !(forall|k: int| start <= k < i ==> is_ws(#[trigger] s[k])),
            forall|lo: int, hi: int| is_line(s, lo, hi) && hi < start ==> #[trigger] trim(s.subrange(lo, hi)).len() == 0,
        decreases v.len() - i,
    {
        if v[i] == '\n' {
            proof {
                lemma_trim_empty_iff_blank(s.subrange(start as int, i as int));
            }
            if seen {
                let line = trimmed(string_of(&v, start, i).as_str());
                assert(is_line(s, start as int, i as int));
                assert(line@ == trim(s.subrange(start as int, i as int)));
                assert(line@.len() > 0) by {
            let sub = s.subrange(start as int, i as int);
            let k0 = choose|k: int| start <= k < i && !is_ws(#[trigger] s[k]);
            assert(sub[k0 - start] == s[k0]);
        }
                assert(exists|lo: int, hi: int|
                    {
                        &&& is_line(s, lo, hi)
                        &&& line@ == trim(s.subrange(lo, hi))
                        &&& line@.len() > 0
                        &&& forall|lo2: int, hi2: int|
                            is_line(s, lo2, hi2) && hi2 < lo ==> #[trigger] trim(s.subrange(lo2, hi2)).len() == 0
                    }) by {
                    assert(is_line(s, start as int, i as int));
                }
                return Some(line);
            }
            assert forall|lo2: int, hi2: int|
                is_line(s, lo2, hi2) && hi2 < i + 1 implies #[trigger] trim(s.subrange(lo2, hi2)).len() == 0 by {
                if hi2 >= start {
                    if hi2 < i {
                        assert(s[hi2] == '\n');
                    }
                    if lo2 < start {
                        assert(s[start - 1] == '\n');
                    } else if lo2 > start {
                        assert(s[lo2 - 1] != '\n');
                    }
                    assert(s.subrange(lo2, hi2) =~= s.subrange(start as int, i as int));
                }
            }
            start = i + 1;
            seen = false;
        } else if !is_whitespace(v[i]) {
            seen = true;
        }
        i = i + 1;
    }
    proof {
        lemma_trim_empty_iff_blank(s.subrange(start as int, i as int));
    }
    if seen {
        let line = trimmed(string_of(&v, start, i).as_str());
        assert(is_line(s, start as int, i as int));
        assert(line@ == trim(s.subrange(start as int, i as int)));
        assert(line@.len() > 0) by {
            let sub = s.subrange(start as int, i as int);
            let k0 = choose|k: int| start <= k < i && !is_ws(#[trigger] s[k]);
            assert(sub[k0 - start] == s[k0]);
        }
        assert(exists|lo: int, hi: int|
            {
                &&& is_line(s, lo, hi)
                &&& line@ == trim(s.subrange(lo, hi))
                &&& line@.len() > 0
                &&& forall|lo2: int, hi2: int|
                    is_line(s, lo2, hi2) && hi2 < lo ==> #[trigger] trim(s.subrange(lo2, hi2)).len() == 0
            }) by {
            assert(is_line(s, start as int, i as int));
        }
        return Some(line);
    }
    assert forall|lo2: int, hi2: int| is_line(s, lo2, hi2) implies #[trigger] trim(s.subrange(lo2, hi2)).len() == 0 by {
        if hi2 >= start {
            if hi2 < i {
                assert(s[hi2] == '\n');
            }
            if lo2 < start {
                assert(s[start - 1] == '\n');
            } else if lo2 > start {
                assert(s[lo2 - 1] != '\n');
            }
            assert(s.subrange(lo2, hi2) =~= s.subrange(start as int, i as int));
        }
    }
    None
}

/// A one-element list when `cond` holds, else an empty one.
pub open spec fn arg_if(cond: bool, a: Seq<char>) -> Seq<Seq<char>> {
    if cond {
        seq![a]
    } else {
        Seq::empty()
    }
}

/// The arguments of `realm` to join the domain: `join`, the account, the
/// client software unless empty or `automatically`, the server software
/// unless empty, the membership software unless empty or `automatically`,
/// the computer OU unless absent, empty or the server is `ipa`, the LDAPS
/// and ID-mapping switches when set, and the domain.
pub open spec fn realm_join_args_spec(o: JoinDomainOptions) -> Seq<Seq<char>> {
    let cs = opt_chars(o.client_software);
    let ss = opt_chars(o.server_software);
    let ms = opt_chars(o.membership_software);
    let ou = opt_chars(o.ou);
    seq!["join"@, "--user="@ + o.account@] + arg_if(
        cs.len() > 0 && cs != "automatically"@,
        "--client-software="@ + cs,
    ) + arg_if(ss.len() > 0, "--server-software="@ + ss) + arg_if(
        ms.len() > 0 && ms != "automatically"@,
        "--membership-software="@ + ms,
    ) + arg_if(ou.len() > 0 && ss != "ipa"@, "--computer-ou="@ + ou) + arg_if(
        o.ssl == Some(true),
        "--use-ldaps"@,
    ) + arg_if(o.automatic_id_mapping == Some(true), "--automatic-id-mapping=no"@) + seq![o.domain@]
}

/// `1` when `b` holds, else `0`.
pub open spec fn one_if(b: bool) -> int {
    if b {
        1
    } else {
        0
    }
}

/// Whether the client software is passed to `realm join`.
pub open spec fn client_on(o: JoinDomainOptions) -> bool {
    opt_chars(o.client_software).len() > 0 && opt_chars(o.client_software) != "automatically"@
}

/// Whether the server software is passed to `realm join`.
pub open spec fn server_on(o: JoinDomainOptions) -> bool {
    opt_chars(o.server_software).len() > 0
}

/// Whether the membership software is passed to `realm join`.
pub open spec fn membership_on(o: JoinDomainOptions) -> bool {
    opt_chars(o.membership_software).len() > 0 && opt_chars(o.membership_software) != "automatically"@
}

/// Whether the computer OU is passed to `realm join`.
pub open spec fn ou_on(o: JoinDomainOptions) -> bool {
    opt_chars(o.ou).len() > 0 && opt_chars(o.server_software) != "ipa"@
}

proof fn lemma_realm_join_positions(o: JoinDomainOptions)
    ensures
        ({
            let args = realm_join_args_spec(o);
            let i2 = 2 + one_if(client_on(o));
            let i3 = i2 + one_if(server_on(o));
            let i4 = i3 + one_if(membership_on(o));
            let i5 = i4 + one_if(ou_on(o));
            let i6 = i5 + one_if(o.ssl == Some(true));
            &&& args.len() == i6 + one_if(o.automatic_id_mapping == Some(true)) + 1
            &&& args[0] == "join"@
            &&& args[1] == "--user="@ + o.account@
            &&& args[args.len() - 1] == o.domain@
            &&& client_on(o) ==> args[2] == "--client-software="@ + opt_chars(o.client_software)
            &&& server_on(o) ==> args[i2] == "--server-software="@ + opt_chars(o.server_software)
            &&& membership_on(o) ==> args[i3] == "--membership-software="@ + opt_chars(o.membership_software)
            &&& ou_on(o) ==> args[i4] == "--computer-ou="@ + opt_chars(o.ou)
            &&& o.ssl == Some(true) ==> args[i5] == "--use-ldaps"@
            &&& o.automatic_id_mapping == Some(true) ==> args[i6] == "--automatic-id-mapping=no"@
        }),
{
    let args = realm_join_args_spec(o);
    let a0 = seq!["join"@, "--user="@ + o.account@];
    let a1 = a0 + arg_if(client_on(o), "--client-software="@ + opt_chars(o.client_software));
    let a2 = a1 + arg_if(server_on(o), "--server-software="@ + opt_chars(o.server_software));
    let a3 = a2 + arg_if(membership_on(o), "--membership-software="@ + opt_chars(o.membership_software));
    let a4 = a3 + arg_if(ou_on(o), "--computer-ou="@ + opt_chars(o.ou));
    let a5 = a4 + arg_if(o.ssl == Some(true), "--use-ldaps"@);
    let a6 = a5 + arg_if(o.automatic_id_mapping == Some(true), "--automatic-id-mapping=no"@);
    assert(args =~= a6 + seq![o.domain@]);
}

/// What the `realm join` command line holds, whatever the options: `join`
/// and the account first, the domain last, and in between exactly one
/// argument for each switch that applies: the client software (set, not
/// `automatically`), the server software (set), the membership software
/// (set, not `automatically`), the computer OU (set, server not `ipa`),
/// LDAPS and disabled ID mapping (each when on); each of the first four
/// comes after the one before it in that list.
pub proof fn lemma_realm_join_args_content(o: JoinDomainOptions)
    ensures
        ({
            let args = realm_join_args_spec(o);
            &&& args.len() == 3 + one_if(client_on(o)) + one_if(server_on(o)) + one_if(membership_on(o)) + one_if(
                ou_on(o),
            ) + one_if(o.ssl == Some(true)) + one_if(o.automatic_id_mapping == Some(true))
            &&& args[0] == "join"@
            &&& args[1] == "--user="@ + o.account@
            &&& args[args.len() - 1] == o.domain@
            &&& client_on(o) ==> exists|i: int|
                2 <= i < args.len() - 1 && #[trigger] args[i] == "--client-software="@ + opt_chars(o.client_software)
            &&& server_on(o) ==> exists|i: int|
                2 <= i < args.len() - 1 && #[trigger] args[i] == "--server-software="@ + opt_chars(o.server_software)
                    && (client_on(o) ==> args[i - 1] == "--client-software="@ + opt_chars(o.client_software))
            &&& membership_on(o) ==> exists|i: int|
                2 <= i < args.len() - 1 && #[trigger] args[i] == "--membership-software="@ + opt_chars(
                    o.membership_software,
                ) && (server_on(o) ==> args[i - 1] == "--server-software="@ + opt_chars(o.server_software))
            &&& ou_on(o) ==> exists|i: int|
                2 <= i < args.len() - 1 && #[trigger] args[i] == "--computer-ou="@ + opt_chars(o.ou) && (membership_on(
                    o,
                ) ==> args[i - 1] == "--membership-software="@ + opt_chars(o.membership_software))
            &&& o.ssl == Some(true) ==> exists|i: int| 2 <= i < args.len() - 1 && #[trigger] args[i] == "--use-ldaps"@
            &&& o.automatic_id_mapping == Some(true) ==> exists|i: int|
                2 <= i < args.len() - 1 && #[trigger] args[i] == "--automatic-id-mapping=no"@
        }),
{
    lemma_realm_join_positions(o);
    let args = realm_join_args_spec(o);
    let i2 = 2 + one_if(client_on(o));
    let i3 = i2 + one_if(server_on(o));
    let i4 = i3 + one_if(membership_on(o));
    let i5 = i4 + one_if(ou_on(o));
    let i6 = i5 + one_if(o.ssl == Some(true));
    if client_on(o) {
        assert(args[2] == "--client-software="@ + opt_chars(o.client_software));
    }
    if server_on(o) {
        assert(args[i2] == "--server-software="@ + opt_chars(o.server_software));
    }
    if membership_on(o) {
        assert(args[i3] == "--membership-software="@ + opt_chars(o.membership_software));
    }
    if ou_on(o) {
        assert(args[i4] == "--computer-ou="@ + opt_chars(o.ou));
    }
    if o.ssl == Some(true) {
        assert(args[i5] == "--use-ldaps"@);
    }
    if o.automatic_id_mapping == Some(true) {
        assert(args[i6] == "--automatic-id-mapping=no"@);
    }
}

/// The characters of each string of a list.
pub open spec fn views(v: Seq<String>) -> Seq<Seq<char>> {
    v.map_values(|s: String| s@)
}

fn opt_string(o: &Option<String>) -> (r: String)
    ensures
        r@ == opt_chars(*o),
{
    match o {
        Some(s) => s.clone(),
        None => String::new(),
    }
}

fn push_arg(args: &mut Vec<String>, cond: bool, prefix: &str, value: &str)
    ensures
        views(final(args)@) == views(old(args)@) + arg_if(cond, prefix@ + value@),
{
    let ghost before = views(args@);
    if cond {
        let mut a = String::from_str(prefix);
        a.append(value);
        args.push(a);
    }
    assert(views(args@) =~= before + arg_if(cond, prefix@ + value@));
}

/// Builds the arguments of `realm` to join the domain.
pub fn realm_join_args(o: &JoinDomainOptions) -> (r: Vec<String>)
    ensures
        views(r@) == realm_join_args_spec(*o),
{
    let cs = opt_string(&o.client_software);
    let ss = opt_string(&o.server_software);
    let ms = opt_string(&o.membership_software);
    let ou = opt_string(&o.ou);
    let mut args: Vec<String> = Vec::new();
    args.push(String::from_str("join"));
    let mut u = String::from_str("--user=");
    u.append(o.account.as_str());
    args.push(u);
    assert(views(args@) =~= seq!["join"@, "--user="@ + o.account@]);
    push_arg(
        &mut args,
        !cs.as_str().is_empty() && !str_eq(cs.as_str(), "automatically"),
        "--client-software=",
        cs.as_str(),
    );
    push_arg(&mut args, !ss.as_str().is_empty(), "--server-software=", ss.as_str());
    push_arg(
        &mut args,
        !ms.as_str().is_empty() && !str_eq(ms.as_str(), "automatically"),
        "--membership-software=",
        ms.as_str(),
    );
    push_arg(&mut args, !ou.as_str().is_empty() && !str_eq(ss.as_str(), "ipa"), "--computer-ou=", ou.as_str());
    let ldaps = match o.ssl {
        Some(b) => b,
        None => false,
    };
    push_arg(&mut args, ldaps, "--use-ldaps", "");
    let idmap = match o.automatic_id_mapping {
        Some(b) => b,
        None => false,
    };
    push_arg(&mut args, idmap, "--automatic-id-mapping=no", "");
    let ghost before = views(args@);
    args.push(o.domain.clone());
    assert(views(args@) =~= before + seq![o.domain@]);
    proof {
        reveal_strlit("");
    }
    assert("--use-ldaps"@ + ""@ =~= "--use-ldaps"@);
    assert("--automatic-id-mapping=no"@ + ""@ =~= "--automatic-id-mapping=no"@);
    args
}

/// How running `realm list --name-only` ended.
pub enum RealmListRun {
    /// The `realm` program is not installed.
    NotInstalled,
    /// The program could not be started for another reason.
    SpawnFailed,
    /// The program ran: whether it exited successfully, and its output.
    Exited { success: bool, stdout: String },
}

/// Why the current realm could not be determined.
#[derive(Clone, Copy, Debug, PartialEq, Eq, Structural)]
pub enum DomainNameError {
    /// `realm` is missing, which a host managed by the actor cannot be.
    RealmMissing,
    /// `realm` could not be started.
    SpawnFailed,
    /// `realm list` exited with a failure.
    ListFailed,
}

/// The realm the host is joined to, from the run of `realm list
/// --name-only`: an error unless it ran and exited successfully (a missing
/// `realm` is an error, never "no realm"); then the first non-blank line of
/// its output, trimmed, or `None` when there is none.
pub fn domain_name_from(run: &RealmListRun) -> (r: Result<Option<String>, DomainNameError>)
    ensures
        match run {
            RealmListRun::NotInstalled => r == Err::<Option<String>, DomainNameError>(DomainNameError::RealmMissing),
            RealmListRun::SpawnFailed => r == Err::<Option<String>, DomainNameError>(DomainNameError::SpawnFailed),
            RealmListRun::Exited { success, stdout } => if !*success {
                r == Err::<Option<String>, DomainNameError>(DomainNameError::ListFailed)
            } else {
                r is Ok && first_line_spec(
                    stdout@,
                    match r->Ok_0 {
                        Some(t) => Some(t@),
                        None => None,
                    },
                )
            },
        },
{
    match run {
        RealmListRun::NotInstalled => Err(DomainNameError::RealmMissing),
        RealmListRun::SpawnFailed => Err(DomainNameError::SpawnFailed),
        RealmListRun::Exited { success, stdout } => {
            if !*success {
                Err(DomainNameError::ListFailed)
            } else {
                Ok(first_nonblank_line(stdout.as_str()))
            }
        },
    }
}

/// Whether joining needs the host renamed first: for a FreeIPA server.
pub fn needs_ipa_hostname(o: &JoinDomainOptions) -> (r: bool)
    ensures
        r == (opt_chars(o.server_software) == "ipa"@),
{
    let ss = opt_string(&o.server_software);
    str_eq(ss.as_str(), "ipa")
}

/// The fully qualified host name set for FreeIPA: the lower-cased host
/// name, a dot, and the domain.
pub fn ipa_fqdn(hostname: &str, domain: &str) -> (r: String)
    ensures
        r@ == spec_to_lowercase(hostname@) + "."@ + domain@,
        is_ascii_text(hostname@) ==> spec_to_lowercase(hostname@) == ascii_lowercase(hostname@),
{
    let mut r = to_lowercase(hostname);
    r.append(".");
    r.append(domain);
    r
}

/// The first step of the membership check.
#[derive(Clone, Copy, Debug, PartialEq, Eq, Structural)]
pub enum MembershipStep {
    /// Join the requested domain.
    Join,
    /// Already in the requested domain: probe the machine trust.
    ProbeTrust,
}

/// Join when the host is in no realm or in another one (names compared
/// ignoring ASCII case); else probe the trust.
pub fn membership_first_step(current: Option<&str>, requested: &str) -> (r: MembershipStep)
    ensures
        r == match current {
            None => MembershipStep::Join,
            Some(c) => if eq_ignore_ascii_case(c@, requested@) {
                MembershipStep::ProbeTrust
            } else {
                MembershipStep::Join
            },
        },
{
    match current {
        None => MembershipStep::Join,
        Some(c) => if ascii_case_eq(c, requested) {
            MembershipStep::ProbeTrust
        } else {
            MembershipStep::Join
        },
    }
}

/// Equality of two strings ignoring ASCII case.
pub fn ascii_case_eq(a: &str, b: &str) -> (r: bool)
    ensures
        r == eq_ignore_ascii_case(a@, b@),
{
    let va = chars_of(a);
    let vb = chars_of(b);
    if va.len() != vb.len() {
        return false;
    }
    let mut i: usize = 0;
    while i < va.len()
        invariant
            va@ == a@,
            vb@ == b@,
            va.len() == vb.len(),
            i <= va.len(),
            forall|j: int| 0 <= j < i ==> ascii_lower(#[trigger] va@[j]) == ascii_lower(vb@[j]),
        decreases va.len() - i,
    {
        if lower_ascii(va[i]) != lower_ascii(vb[i]) {
            return false;
        }
        i = i + 1;
    }
    true
}

fn lower_ascii(c: char) -> (r: char)
    ensures
        r == ascii_lower(c),
{
    if 'A' <= c && c <= 'Z' {
        let u = (c as u32) + 32;
        let r = char_from_ascii(u);
        r
    } else {
        c
    }
}

fn char_from_ascii(u: u32) -> (r: char)
    requires
        0x61 <= u <= 0x7a,
    ensures
        r as u32 == u,
{
    match u {
        0x61 => 'a',
        0x62 => 'b',
        0x63 => 'c',
        0x64 => 'd',
        0x65 => 'e',
        0x66 => 'f',
        0x67 => 'g',
        0x68 => 'h',
        0x69 => 'i',
        0x6a => 'j',
        0x6b => 'k',
        0x6c => 'l',
        0x6d => 'm',
        0x6e => 'n',
        0x6f => 'o',
        0x70 => 'p',
        0x71 => 'q',
        0x72 => 'r',
        0x73 => 's',
        0x74 => 't',
        0x75 => 'u',
        0x76 => 'v',
        0x77 => 'w',
        0x78 => 'x',
        0x79 => 'y',
        _ => 'z',
    }
}

/// How the trust probe (`net ads testjoin`) went.
#[derive(Clone, Copy, Debug, PartialEq, Eq, Structural)]
pub enum TrustProbe {
    /// It ran and succeeded.
    Healthy,
    /// It ran and failed.
    Failed,
    /// The tool is not installed.
    ToolMissing,
    /// It could not be started.
    SpawnFailed,
}

/// After the probe: a healthy trust needs nothing (no join); anything else
/// needs a full join. Returns whether to join.
pub fn join_after_probe(probe: TrustProbe) -> (r: bool)
    ensures
        r == (probe != TrustProbe::Healthy),
{
    match probe {
        TrustProbe::Healthy => false,
        _ => true,
    }
}

/// Whether a missing probe tool is reported as a warning: when the server
/// software is unknown or Active Directory (compared ignoring ASCII case),
/// where the tool is expected.
pub fn missing_tool_is_warning(o: &JoinDomainOptions) -> (r: bool)
    ensures
        r == match o.server_software {
            None => true,
            Some(s) => eq_ignore_ascii_case(s@, "active-directory"@),
        },
{
    match &o.server_software {
        None => true,
        Some(s) => ascii_case_eq(s.as_str(), "active-directory"),
    }
}

/// Whether `systemctl is-active systemd-timesyncd` reports the time daemon
/// active: the command succeeded and printed `active`.
pub fn timesyncd_active(success: bool, stdout: &str) -> (r: bool)
    ensures
        r == (success && trim(stdout@) == "active"@),
{
    if !success {
        return false;
    }
    let t = trimmed(stdout);
    str_eq(t.as_str(), "active")
}

/// The OU handed to the Windows join call: the trimmed OU, or none when it
/// is absent or blank.
pub fn effective_ou(o: &JoinDomainOptions) -> (r: Option<String>)
    ensures
        r is None <==> trim(opt_chars(o.ou)).len() == 0,
        r is Some ==> r->0@ == trim(opt_chars(o.ou)),
{
    let ou = opt_string(&o.ou);
    let t = trimmed(ou.as_str());
    if t.as_str().is_empty() {
        None
    } else {
        Some(t)
    }
}

/// Why the clock could not be refreshed.
#[derive(Clone, Copy, Debug, PartialEq, Eq, Structural)]
pub enum RefreshError {
    /// The time daemon is not running.
    NotActive,
    /// Restarting the time daemon failed.
    RestartFailed,
}

/// The outcome of a clock refresh: the time daemon must be active, and is
/// restarted to force a sync; `restart_ok` is only consulted when it is.
pub fn refresh_outcome(active: bool, restart_ok: bool) -> (r: Result<(), RefreshError>)
    ensures
        !active ==> r == Err::<(), RefreshError>(RefreshError::NotActive),
        active && !restart_ok ==> r == Err::<(), RefreshError>(RefreshError::RestartFailed),
        active && restart_ok ==> r is Ok,
{
    if !active {
        Err(RefreshError::NotActive)
    } else if !restart_ok {
        Err(RefreshError::RestartFailed)
    } else {
        Ok(())
    }
}

} // verus!
