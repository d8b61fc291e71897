//! Backend-target resolution. A backend is either a local process to spawn
//! — configured as an invocation string split on spaces, first token the
//! executable, the rest its arguments — or a TCP address to dial, written
//! `[host:]port` with a bare port defaulting to the loopback host. The
//! decisions and the string work are verified here; the host program spawns
//! and dials.

use crate::bytes::ascii_bytes;
use vstd::prelude::*;

verus! {

/// The space byte separating tokens of a process invocation string.
pub const SPACE: u8 = 0x20;

/// An address with the loopback host put in front when none is given: a
/// bare port has no `:` in it.
pub open spec fn qualified(addr: Seq<u8>) -> Seq<u8> {
    if addr.contains(0x3a) {
        addr
    } else {
        ascii_bytes("127.0.0.1:"@) + addr
    }
}

/// Default the host part of `[host:]port` to loopback when absent.
pub fn qualify_address(addr: &[u8]) -> (r: Vec<u8>)
    ensures
        r@ == qualified(addr@),
{
    proof {
        reveal_strlit("127.0.0.1:");
    }
    let mut has_colon = false;
    let mut i: usize = 0;
    while i < addr.len()
        invariant
            i <= addr.len(),
            has_colon == exists|j: int| 0 <= j < i && addr@[j] == 0x3a,
        decreases addr.len() - i,
    {
        if addr[i] == 0x3a {
            has_colon = true;
        }
        i += 1;
    }
    if has_colon {
        crate::bytes::bytes_to_vec(addr)
    } else {
        let mut r = crate::bytes::lit_bytes("127.0.0.1:");
        r.extend_from_slice(addr);
        proof {
            assert(!addr@.contains(0x3a));
            assert(r@ =~= qualified(addr@));
        }
        r
    }
}

/// Index of the first space in `s`, or `s.len()` when there is none.
pub open spec fn first_space(s: Seq<u8>) -> nat
    decreases s.len(),
{
    if s.len() == 0 {
        0
    } else if s[0] == SPACE {
        0
    } else {
        1 + first_space(s.drop_first())
    }
}

/// `first_space` really is the first space: it is in range, it points at a
/// space when one exists, and nothing before it is a space.
pub proof fn lemma_first_space(s: Seq<u8>)
    ensures
        first_space(s) <= s.len(),
        first_space(s) < s.len() ==> s[first_space(s) as int] == SPACE,
        forall|j: int| 0 <= j < first_space(s) ==> s[j] != SPACE,
    decreases s.len(),
{
    if s.len() > 0 && s[0] != SPACE {
        lemma_first_space(s.drop_first());
        assert forall|j: int| 0 <= j < first_space(s) implies s[j] != SPACE by {
            if j > 0 {
                assert(s.drop_first()[j - 1] == s[j]);
            }
        }
    }
}

/// The fields of `s` split on spaces, empty fields kept: how a process
/// invocation string parts into executable and arguments.
pub open spec fn split_fields(s: Seq<u8>) -> Seq<Seq<u8>>
    decreases s.len(),
{
    let i = first_space(s) as int;
    if i < s.len() {
        seq![s.take(i)] + split_fields(s.skip(i + 1))
    } else {
        seq![s]
    }
}

/// Splitting never yields an empty list: there is always a first token.
pub proof fn lemma_split_fields_nonempty(s: Seq<u8>)
    ensures
        split_fields(s).len() >= 1,
    decreases s.len(),
{
}

/// Extending the string by one byte extends the split: a space opens a new
/// empty field, any other byte grows the last one.
pub proof fn lemma_split_fields_snoc(s: Seq<u8>, b: u8)
    ensures
        b == SPACE ==> split_fields(s.push(b)) == split_fields(s) + seq![Seq::<u8>::empty()],
        b != SPACE ==> split_fields(s.push(b)) == split_fields(s).update(
            split_fields(s).len() - 1,
            split_fields(s).last().push(b),
        ),
    decreases s.len(),
{
    lemma_first_space(s);
    lemma_split_fields_nonempty(s);
    let p = s.push(b);
    let fs = first_space(s) as int;
    lemma_first_space_push(s, b);
    if fs < s.len() {
        assert(p.take(fs) =~= s.take(fs));
        assert(p.skip(fs + 1) =~= s.skip(fs + 1).push(b));
        lemma_split_fields_snoc(s.skip(fs + 1), b);
        lemma_split_fields_nonempty(s.skip(fs + 1));
        if b == SPACE {
            assert(split_fields(p) =~= split_fields(s) + seq![Seq::<u8>::empty()]);
        } else {
            assert(split_fields(p) =~= split_fields(s).update(
                split_fields(s).len() - 1,
                split_fields(s).last().push(b),
            ));
        }
    } else {
        assert(split_fields(s) == seq![s]);
        if b == SPACE {
            assert(first_space(p) == s.len());
            assert(p.take(s.len() as int) =~= s);
            assert(p.skip(s.len() as int + 1) =~= Seq::<u8>::empty());
            assert(split_fields(Seq::<u8>::empty()) == seq![Seq::<u8>::empty()]);
            assert(split_fields(p) =~= split_fields(s) + seq![Seq::<u8>::empty()]);
        } else {
            assert(first_space(p) == s.len() + 1);
            assert(split_fields(p) == seq![p]);
            assert(split_fields(p) =~= split_fields(s).update(
                split_fields(s).len() - 1,
                split_fields(s).last().push(b),
            ));
        }
    }
}

/// The first space of a string one byte longer: unchanged when the string
/// already had one, else decided by the new byte.
pub proof fn lemma_first_space_push(s: Seq<u8>, b: u8)
    ensures
        first_space(s) < s.len() ==> first_space(s.push(b)) == first_space(s),
        first_space(s) == s.len() && b == SPACE ==> first_space(s.push(b)) == s.len(),
        first_space(s) == s.len() && b != SPACE ==> first_space(s.push(b)) == s.len() + 1,
    decreases s.len(),
{
    lemma_first_space(s);
    if s.len() == 0 {
        assert(s.push(b)[0] == b);
        if b != SPACE {
            assert(s.push(b).drop_first() =~= Seq::<u8>::empty());
            assert(first_space(Seq::<u8>::empty()) == 0);
        }
    } else if s[0] != SPACE {
        assert(s.push(b)[0] == s[0]);
        assert(s.push(b).drop_first() =~= s.drop_first().push(b));
        lemma_first_space(s.drop_first());
        lemma_first_space_push(s.drop_first(), b);
    }
}

/// The views of a list of owned byte strings.
pub open spec fn fields_view(ps: Seq<Vec<u8>>) -> Seq<Seq<u8>> {
    ps.map_values(|v: Vec<u8>| v@)
}

/// Split a process invocation string on spaces, empty fields kept; the
/// first field is the executable, the rest are its arguments.
pub fn split_command(cmd: &[u8]) -> (parts: Vec<Vec<u8>>)
    ensures
        fields_view(parts@) == split_fields(cmd@),
        parts@.len() >= 1,
{
    let mut parts: Vec<Vec<u8>> = Vec::new();
    let mut cur: Vec<u8> = Vec::new();
    proof {
        assert(cmd@.take(0) =~= Seq::<u8>::empty());
        assert(first_space(Seq::<u8>::empty()) == 0);
        assert(split_fields(Seq::<u8>::empty()) == seq![Seq::<u8>::empty()]);
        assert(fields_view(parts@) + seq![cur@] =~= split_fields(cmd@.take(0)));
    }
    let mut i: usize = 0;
    while i < cmd.len()
        invariant
            i <= cmd.len(),
            fields_view(parts@) + seq![cur@] =~= split_fields(cmd@.take(i as int)),
        decreases cmd.len() - i,
    {
        let ghost pre = cmd@.take(i as int);
        proof {
            lemma_split_fields_snoc(pre, cmd@[i as int]);
            lemma_split_fields_nonempty(pre);
            assert(pre.push(cmd@[i as int]) =~= cmd@.take(i + 1));
        }
        if cmd[i] == SPACE {
            parts.push(cur);
            cur = Vec::new();
            proof {
                assert(fields_view(parts@) + seq![cur@] =~= split_fields(cmd@.take(i + 1)));
            }
        } else {
            cur.push(cmd[i]);
            proof {
                assert(split_fields(pre).last() == cur@.drop_last());
                assert(fields_view(parts@) + seq![cur@] =~= split_fields(pre).update(
                    split_fields(pre).len() - 1,
                    split_fields(pre).last().push(cmd@[i as int]),
                ));
            }
        }
        i += 1;
    }
    proof {
        assert(cmd@.take(cmd@.len() as int) =~= cmd@);
    }
    parts.push(cur);
    proof {
        assert(fields_view(parts@) =~= split_fields(cmd@));
    }
    parts
}

/// The backend one dial attempt uses: a process to spawn with piped
/// standard input and output, or a remote address to dial.
pub enum BackendPlan {
    /// Spawn this invocation: first field the executable, rest arguments.
    Spawn(Vec<Vec<u8>>),
    /// Dial this TCP address.
    Dial(Vec<u8>),
}

/// Resolve the configured backend: a non-empty process invocation string
/// takes precedence; otherwise the remote address is dialed, its host
/// defaulted to loopback.
pub fn select_backend(exec_command: &[u8], remote: &[u8]) -> (r: BackendPlan)
    ensures
        exec_command@.len() > 0 ==> (r matches BackendPlan::Spawn(parts) && fields_view(parts@)
            == split_fields(exec_command@)),
        exec_command@.len() == 0 ==> (r matches BackendPlan::Dial(a) && a@ == qualified(
            remote@,
        )),
{
    if exec_command.len() > 0 {
        BackendPlan::Spawn(split_command(exec_command))
    } else {
        BackendPlan::Dial(qualify_address(remote))
    }
}

} // verus!
