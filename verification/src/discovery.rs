//! The compute half of workload discovery: normalizing raw backend
//! metadata into one schema, and preferring a backend-assigned network
//! address over the string form of the declared one.

use vstd::prelude::*;
use vstd::string::StrSliceExecFns;
use vstd::string::StringExecFns;

use crate::metadata::Metadata;
use crate::metadata::spec_entries_get;
use crate::text::after_last_colon;
use crate::text::parse_u16;
use crate::text::push_char;
use crate::text::spec_after_last_colon;
use crate::text::spec_dec_digits;
use crate::text::spec_parse_u16;
use crate::text::spec_unescape_newlines;
use crate::text::u16_to_dec;
use crate::text::unescape_newlines;

verus! {

/// The first position at or after `i` holding an equals sign; the length
/// when there is none.
pub open spec fn spec_first_eq(s: Seq<char>, i: int) -> int
    decreases s.len() - i,
    when 0 <= i <= s.len()
{
    if i < s.len() && s[i] != '=' {
        spec_first_eq(s, i + 1)
    } else {
        i
    }
}

/// What `str::split_once('=')` yields: the parts before and after the
/// first equals sign, or nothing when the entry holds none.
pub open spec fn spec_split_env_entry(s: Seq<char>) -> Option<(Seq<char>, Seq<char>)> {
    let p = spec_first_eq(s, 0);
    if p == s.len() {
        None
    } else {
        Some((s.subrange(0, p), s.subrange(p + 1, s.len() as int)))
    }
}

/// Split one `KEY=VALUE` service-unit environment entry at its first
/// equals sign; an entry without one yields nothing.
pub fn split_env_entry(s: &str) -> (r: Option<(String, String)>)
    ensures
        match r {
            Some(kv) => spec_split_env_entry(s@) == Some((kv.0@, kv.1@)),
            None => spec_split_env_entry(s@) is None,
        },
{
    let n = s.unicode_len();
    let mut j: usize = 0;
    while j < n
        invariant
            0 <= j <= n,
            n == s@.len(),
            spec_first_eq(s@, 0) == spec_first_eq(s@, j as int),
        ensures
            j == n || s@[j as int] == '=',
            spec_first_eq(s@, 0) == spec_first_eq(s@, j as int),
        decreases n - j,
    {
        if s.get_char(j) == '=' {
            break;
        }
        j += 1;
    }
    if j == n {
        return None;
    }
    let key = String::from_str(s.substring_char(0, j));
    let value = String::from_str(s.substring_char(j + 1, n));
    Some((key, value))
}

/// The metadata a list of `KEY=VALUE` environment entries holds, in order;
/// entries without an equals sign are dropped.
pub open spec fn spec_environment_entries(s: Seq<Seq<char>>) -> Seq<(Seq<char>, Seq<char>)>
    decreases s.len(),
{
    if s.len() == 0 {
        Seq::empty()
    } else {
        let rest = spec_environment_entries(s.drop_last());
        match spec_split_env_entry(s.last()) {
            Some(kv) => rest.push(kv),
            None => rest,
        }
    }
}

/// Build one workload's metadata from its service unit's environment
/// entries.
pub fn environment_from_entries(entries: &Vec<String>) -> (r: Metadata)
    ensures
        r@ =~= spec_environment_entries(entries.deep_view()),
{
    let n = entries.len();
    let mut out = Metadata::new();
    let mut i: usize = 0;
    proof {
        assert(entries.deep_view().subrange(0, 0) =~= Seq::<Seq<char>>::empty());
    }
    while i < n
        invariant
            0 <= i <= n,
            n == entries@.len(),
            out@ =~= spec_environment_entries(entries.deep_view().subrange(0, i as int)),
        decreases n - i,
    {
        proof {
            let q = entries.deep_view().subrange(0, (i + 1) as int);
            assert(q.drop_last() =~= entries.deep_view().subrange(0, i as int));
            assert(q.last() == entries.deep_view()[i as int]);
        }
        match split_env_entry(entries[i].as_str()) {
            Some(kv) => {
                out.insert(kv.0, kv.1);
            },
            None => {},
        }
        i += 1;
    }
    proof {
        assert(entries.deep_view().subrange(0, n as int) =~= entries.deep_view());
    }
    out
}

/// Every value run through the newline unescape, keys and order kept.
pub open spec fn spec_unescape_entries(s: Seq<(Seq<char>, Seq<char>)>) -> Seq<
    (Seq<char>, Seq<char>),
> {
    Seq::new(s.len(), |i: int| (s[i].0, spec_unescape_newlines(s[i].1)))
}

/// What refinement leaves: values unescaped; and when the backend assigned
/// the workload an address and the declared endpoint carries a port, the
/// address key is overridden by that address and port.
pub open spec fn spec_refined_labels(
    raw: Seq<(Seq<char>, Seq<char>)>,
    backend_ip: Option<Seq<char>>,
) -> Seq<(Seq<char>, Seq<char>)> {
    let u = spec_unescape_entries(raw);
    let port = match spec_entries_get(u, "lazymc.server.address"@) {
        Some(a) => spec_parse_u16(spec_after_last_colon(a)),
        None => None,
    };
    match (backend_ip, port) {
        (Some(ip), Some(p)) => u.push(
            ("lazymc.server.address"@, ip + ":"@ + spec_dec_digits(p as int)),
        ),
        _ => u,
    }
}

/// Normalize one workload's raw labels: unescape the values, and prefer
/// the backend-assigned network address, joined with the declared port,
/// over the string form of the declared endpoint. Without a
/// backend-assigned address the declared endpoint stands, to be resolved —
/// or found unresolved — at configuration derivation.
pub fn refine_labels(raw: &Metadata, backend_ip: &Option<String>) -> (r: Metadata)
    ensures
        r@ =~= spec_refined_labels(raw@, backend_ip.deep_view()),
{
    let n = raw.len();
    let mut out = Metadata::new();
    let mut i: usize = 0;
    while i < n
        invariant
            0 <= i <= n,
            n == raw@.len(),
            out@ =~= spec_unescape_entries(raw@).subrange(0, i as int),
        decreases n - i,
    {
        let key = raw.key_at(i).clone();
        let value = unescape_newlines(raw.value_at(i).as_str());
        out.insert(key, value);
        proof {
            assert(out@ =~= spec_unescape_entries(raw@).subrange(0, (i + 1) as int));
        }
        i += 1;
    }
    proof {
        assert(spec_unescape_entries(raw@).subrange(0, n as int) =~= spec_unescape_entries(raw@));
    }
    let port = match out.get("lazymc.server.address") {
        Some(a) => {
            let segment = after_last_colon(a.as_str());
            parse_u16(segment.as_str())
        },
        None => None,
    };
    match (backend_ip, port) {
        (Some(ip), Some(p)) => {
            let mut address = ip.clone();
            push_char(&mut address, ':');
            let port_text = u16_to_dec(p);
            address.append(port_text.as_str());
            proof {
                assert(address@ =~= ip@ + ":"@ + spec_dec_digits(p as int)) by {
                    reveal_strlit(":");
                }
            }
            out.insert(String::from_str("lazymc.server.address"), address);
        },
        _ => {},
    }
    out
}

} // verus!
