//! Windows identity rules: the canonical account SID grammar, the pipe
//! security descriptors built from it, the administrator pipe names, which
//! client identities are trusted, and the platform entry points, which this
//! build reports as unsupported.
use vstd::prelude::*;
use vstd::utf8::encode_utf8;
use crate::text::chars_of;
use crate::text::string_of;
use crate::text::push_str;
use crate::text::str_eq_ignore_case;
use crate::text::eq_ignore_case;
use crate::text::all_digits;
use crate::text::digits_value;
use crate::text::digits_to_u64;
use crate::text::char_is_digit;
use crate::text::is_digit;
use crate::text::sub_chars;
use crate::text::push_chars;
use crate::encoding::sha256_hex;
use crate::encoding::sha256_hex_of;
use crate::text::utf8_bytes;

verus! {

/// Every administrator pipe name starts with this.
pub const ADMIN_PIPE_PREFIX: &'static str = "\\\\.\\pipe\\codex-plus-admin-";

/// Longest administrator pipe name.
pub const MAX_ADMIN_PIPE_NAME_LEN: usize = 240;

/// Longest session component of an administrator pipe name.
pub const MAX_PIPE_COMPONENT_LEN: usize = 214;

/// Access the pipe client gets: read and write, but not
/// `FILE_CREATE_PIPE_INSTANCE` (0x4).
pub const CLIENT_READ_WRITE_WITHOUT_CREATE_INSTANCE: u32 = 0x0012_019b;

/// Why a decimal SID field is refused.
#[derive(Debug, Clone, Copy, PartialEq, Eq, Structural)]
pub enum DecimalError {
    Missing,
    Empty,
    NotDigits,
    NotCanonical,
    OutOfRange,
}

/// The decimal fields of a SID.
#[derive(Debug, Clone, Copy, PartialEq, Eq, Structural)]
pub enum SidField {
    Revision,
    IdentifierAuthority,
    Subauthority,
}

/// Why a SID is not a canonical account SID.
#[derive(Debug, Clone, Copy, PartialEq, Eq, Structural)]
pub enum SidError {
    /// The SID does not start with `S-`.
    NotSidPrefix,
    /// A decimal field is malformed.
    Field(SidField, DecimalError),
    /// The revision is not 1.
    UnsupportedRevision,
    /// The identifier authority is not NT (5).
    NotNtAuthority,
    /// There is no subauthority.
    NoSubauthority,
    /// Not five subauthorities, or the first is not 21.
    NotAccountSid,
}

/// Text split at every `sep`; an empty text is one empty segment.
pub open spec fn split_on(s: Seq<char>, sep: char) -> Seq<Seq<char>>
    decreases s.len(),
{
    if s.len() == 0 {
        seq![Seq::empty()]
    } else {
        let p = split_on(s.drop_last(), sep);
        if s.last() == sep {
            p.push(Seq::empty())
        } else {
            p.update(p.len() - 1, p.last().push(s.last()))
        }
    }
}

/// Pieces joined with `sep` between them.
pub open spec fn join_on(parts: Seq<Seq<char>>, sep: char) -> Seq<char>
    decreases parts.len(),
{
    if parts.len() == 0 {
        Seq::empty()
    } else if parts.len() == 1 {
        parts[0]
    } else {
        join_on(parts.drop_last(), sep) + seq![sep] + parts.last()
    }
}

/// Whether a text holds a character.
pub open spec fn has_char(s: Seq<char>, c: char) -> bool {
    exists|i: int| 0 <= i < s.len() && s[i] == c
}

/// Joining the pieces of a split gives the text back.
pub proof fn lemma_join_split(s: Seq<char>, sep: char)
    ensures
        join_on(split_on(s, sep), sep) == s,
    decreases s.len(),
{
    if s.len() > 0 {
        let p = split_on(s.drop_last(), sep);
        lemma_join_split(s.drop_last(), sep);
        lemma_split_nonempty(s.drop_last(), sep);
        if s.last() == sep {
            assert(p.push(Seq::empty()).drop_last() =~= p);
            assert(join_on(p, sep) + seq![sep] + Seq::<char>::empty() =~= s);
        } else {
            let q = p.update(p.len() - 1, p.last().push(s.last()));
            if p.len() == 1 {
                assert(q[0] =~= s);
            } else {
                assert(q.drop_last() =~= p.drop_last());
                assert(join_on(p, sep) == join_on(p.drop_last(), sep) + seq![sep] + p.last());
                assert(s =~= s.drop_last().push(s.last()));
                assert(join_on(p.drop_last(), sep) + seq![sep] + p.last().push(s.last()) =~= s);
            }
        }
    }
}

/// Splitting a text without `sep` gives the text alone.
pub proof fn lemma_split_plain(y: Seq<char>, sep: char)
    requires
        !has_char(y, sep),
    ensures
        split_on(y, sep) == seq![y],
    decreases y.len(),
{
    if y.len() > 0 {
        assert(!has_char(y.drop_last(), sep)) by {
            if has_char(y.drop_last(), sep) {
                let i = choose|i: int| 0 <= i < y.drop_last().len() && y.drop_last()[i] == sep;
                assert(y[i] == sep);
            }
        }
        lemma_split_plain(y.drop_last(), sep);
        assert(y[y.len() - 1] != sep);
        assert(y.drop_last().push(y.last()) =~= y);
        assert(y.last() != sep);
        let p = split_on(y.drop_last(), sep);
        assert(split_on(y, sep) == p.update(p.len() - 1, p.last().push(y.last())));
        assert(p.update(p.len() - 1, p.last().push(y.last())) =~= seq![y]);
    } else {
        assert(y =~= Seq::<char>::empty());
    }
}

/// Splitting `x`, `sep`, `y` where `y` has no `sep` gives the pieces of
/// `x` and then `y`.
pub proof fn lemma_split_append(x: Seq<char>, y: Seq<char>, sep: char)
    requires
        !has_char(y, sep),
    ensures
        split_on(x + seq![sep] + y, sep) == split_on(x, sep).push(y),
    decreases y.len(),
{
    if y.len() == 0 {
        let z = x + seq![sep] + y;
        assert(z.drop_last() =~= x);
        assert(z.last() == sep);
        assert(split_on(z, sep) == split_on(z.drop_last(), sep).push(Seq::empty()));
        assert(y =~= Seq::<char>::empty());
    } else {
        assert(!has_char(y.drop_last(), sep)) by {
            if has_char(y.drop_last(), sep) {
                let i = choose|i: int| 0 <= i < y.drop_last().len() && y.drop_last()[i] == sep;
                assert(y[i] == sep);
            }
        }
        lemma_split_append(x, y.drop_last(), sep);
        assert(y[y.len() - 1] != sep);
        assert((x + seq![sep] + y).drop_last() =~= x + seq![sep] + y.drop_last());
        let p = split_on(x, sep).push(y.drop_last());
        assert(y.drop_last().push(y.last()) =~= y);
        let z = x + seq![sep] + y;
        assert(z.last() == y.last());
        assert(y.last() != sep);
        assert(z.len() > 0);
        assert(split_on(z, sep) == split_on(z.drop_last(), sep).update(
            split_on(z.drop_last(), sep).len() - 1,
            split_on(z.drop_last(), sep).last().push(z.last()),
        ));
        assert(p.update(p.len() - 1, p.last().push(y.last())) =~= split_on(x, sep).push(y));
    }
}

/// Splitting joined pieces that hold no `sep` gives the pieces back.
pub proof fn lemma_split_join(parts: Seq<Seq<char>>, sep: char)
    requires
        parts.len() >= 1,
        forall|k: int| 0 <= k < parts.len() ==> !has_char(#[trigger] parts[k], sep),
    ensures
        split_on(join_on(parts, sep), sep) == parts,
    decreases parts.len(),
{
    if parts.len() == 1 {
        lemma_split_plain(parts[0], sep);
        assert(seq![parts[0]] =~= parts);
    } else {
        lemma_split_join(parts.drop_last(), sep);
        assert(!has_char(parts[parts.len() - 1], sep));
        lemma_split_append(join_on(parts.drop_last(), sep), parts.last(), sep);
        assert(parts.drop_last().push(parts.last()) =~= parts);
    }
}

/// Every character of joined pieces is `sep` or a character of a piece.
pub proof fn lemma_join_chars(parts: Seq<Seq<char>>, sep: char, k: int)
    requires
        0 <= k < join_on(parts, sep).len(),
    ensures
        join_on(parts, sep)[k] == sep || exists|j: int, m: int|
            0 <= j < parts.len() && 0 <= m < parts[j].len() && #[trigger] parts[j][m] == join_on(parts, sep)[k],
    decreases parts.len(),
{
    if parts.len() == 1 {
        assert(parts[0][k] == join_on(parts, sep)[k]);
    } else if parts.len() > 1 {
        let front = join_on(parts.drop_last(), sep);
        if k < front.len() {
            lemma_join_chars(parts.drop_last(), sep, k);
            if join_on(parts, sep)[k] != sep {
                let (j, m) = choose|j: int, m: int|
                    0 <= j < parts.drop_last().len() && 0 <= m < parts.drop_last()[j].len()
                        && #[trigger] parts.drop_last()[j][m] == front[k];
                assert(parts[j][m] == join_on(parts, sep)[k]);
            }
        } else if k > front.len() {
            let m = k - front.len() - 1;
            assert(parts[parts.len() - 1][m] == join_on(parts, sep)[k]);
        }
    }
}

/// Splitting always gives at least one piece.
pub proof fn lemma_split_nonempty(s: Seq<char>, sep: char)
    ensures
        split_on(s, sep).len() >= 1,
    decreases s.len(),
{
    if s.len() > 0 {
        lemma_split_nonempty(s.drop_last(), sep);
    }
}

/// Splits text at every `sep`.
pub fn split_chars(s: &Vec<char>, sep: char) -> (r: Vec<Vec<char>>)
    ensures
        r@.len() == split_on(s@, sep).len(),
        forall|i: int| 0 <= i < r@.len() ==> #[trigger] r@[i]@ == split_on(s@, sep)[i],
{
    let mut r: Vec<Vec<char>> = Vec::new();
    r.push(Vec::new());
    let mut i: usize = 0;
    assert(s@.take(0) =~= Seq::<char>::empty());
    while i < s.len()
        invariant
            i <= s.len(),
            r@.len() == split_on(s@.take(i as int), sep).len(),
            r@.len() >= 1,
            forall|k: int| 0 <= k < r@.len() ==> #[trigger] r@[k]@ == split_on(s@.take(i as int), sep)[k],
        decreases s.len() - i,
    {
        let c = s[i];
        assert(s@.take(i + 1).drop_last() =~= s@.take(i as int));
        assert(s@.take(i + 1).last() == c);
        if c == sep {
            r.push(Vec::new());
        } else {
            let last = r.len() - 1;
            let mut seg = r[last].clone();
            assert(seg@ == r@[last as int]@);
            seg.push(c);
            r.set(last, seg);
        }
        i += 1;
    }
    assert(s@.take(s.len() as int) =~= s@);
    r
}

/// A decimal SID field: digits only, no leading zero (but `0` itself), and
/// a value no larger than `maximum`.
pub open spec fn canonical_decimal(segment: Option<Seq<char>>, maximum: nat) -> Result<nat, DecimalError> {
    match segment {
        None => Err(DecimalError::Missing),
        Some(s) => if s.len() == 0 {
            Err(DecimalError::Empty)
        } else if !all_digits(s) {
            Err(DecimalError::NotDigits)
        } else if s != seq!['0'] && s[0] == '0' {
            Err(DecimalError::NotCanonical)
        } else if digits_value(s) > maximum {
            Err(DecimalError::OutOfRange)
        } else {
            Ok(digits_value(s))
        },
    }
}

/// The view of an optional character vector.
pub open spec fn opt_chars(o: Option<&Vec<char>>) -> Option<Seq<char>> {
    match o {
        Some(v) => Some(v@),
        None => None,
    }
}

/// Reads a decimal SID field.
pub fn parse_canonical_decimal(segment: Option<&Vec<char>>, maximum: u64) -> (r: Result<u64, DecimalError>)
    requires
        maximum >= 9,
    ensures
        r matches Ok(v) ==> canonical_decimal(opt_chars(segment), maximum as nat)
            == Ok::<nat, DecimalError>(v as nat),
        r matches Err(e) ==> canonical_decimal(opt_chars(segment), maximum as nat)
            == Err::<nat, DecimalError>(e),
{
    let s = match segment {
        None => {
            return Err(DecimalError::Missing);
        },
        Some(s) => s,
    };
    if s.len() == 0 {
        return Err(DecimalError::Empty);
    }
    let mut k: usize = 0;
    while k < s.len()
        invariant
            k <= s.len(),
            s@.len() > 0,
            opt_chars(segment) == Some(s@),
            forall|j: int| 0 <= j < k ==> is_digit(s@[j]),
        decreases s.len() - k,
    {
        if !char_is_digit(s[k]) {
            assert(!all_digits(s@)) by {
                assert(!is_digit(s@[k as int]));
            }
            return Err(DecimalError::NotDigits);
        }
        k += 1;
    }
    if s[0] == '0' && s.len() != 1 {
        assert(s@ != seq!['0']);
        return Err(DecimalError::NotCanonical);
    }
    assert(s[0] == '0' ==> s@ =~= seq!['0']);
    match digits_to_u64(s, maximum) {
        Some(v) => Ok(v),
        None => Err(DecimalError::OutOfRange),
    }
}

/// The segment at `i`, if there is one.
pub open spec fn segment_at(segments: Seq<Seq<char>>, i: int) -> Option<Seq<char>> {
    if 0 <= i < segments.len() {
        Some(segments[i])
    } else {
        None
    }
}

/// The first malformed subauthority among `subs`, checked in order.
pub open spec fn first_bad_subauthority(subs: Seq<Seq<char>>) -> Option<DecimalError>
    decreases subs.len(),
{
    if subs.len() == 0 {
        None
    } else {
        match first_bad_subauthority(subs.drop_last()) {
            Some(e) => Some(e),
            None => match canonical_decimal(Some(subs.last()), u32::MAX as nat) {
                Err(e) => Some(e),
                Ok(_) => None,
            },
        }
    }
}

/// A canonical domain or local account SID: `S-1-5-21-a-b-c-d`, each field
/// canonical decimal, the authority at most 48 bits and each subauthority
/// at most 32 bits.
pub open spec fn canonical_sid_check(sid: Seq<char>) -> Result<(), SidError> {
    let segs = split_on(sid, '-');
    if segs[0] != seq!['S'] {
        Err(SidError::NotSidPrefix)
    } else {
        match canonical_decimal(segment_at(segs, 1), 255) {
            Err(e) => Err(SidError::Field(SidField::Revision, e)),
            Ok(revision) => if revision != 1 {
                Err(SidError::UnsupportedRevision)
            } else {
                match canonical_decimal(segment_at(segs, 2), 0xffff_ffff_ffff) {
                    Err(e) => Err(SidError::Field(SidField::IdentifierAuthority, e)),
                    Ok(authority) => if authority != 5 {
                        Err(SidError::NotNtAuthority)
                    } else {
                        let subs = if segs.len() > 3 {
                            segs.skip(3)
                        } else {
                            seq![]
                        };
                        if subs.len() == 0 {
                            Err(SidError::NoSubauthority)
                        } else if subs.len() != 5 {
                            Err(SidError::NotAccountSid)
                        } else {
                            match first_bad_subauthority(subs) {
                                Some(e) => Err(SidError::Field(SidField::Subauthority, e)),
                                None => if digits_value(subs[0]) != 21 {
                                    Err(SidError::NotAccountSid)
                                } else {
                                    Ok(())
                                },
                            }
                        }
                    },
                }
            },
        }
    }
}

/// The pieces of a canonical account SID `S-1-5-21-a-b-c-d`: `S`, then the
/// canonical decimal fields 1, 5 and 21, then four canonical decimal
/// subauthorities of at most 32 bits.
pub open spec fn account_sid_parts(parts: Seq<Seq<char>>) -> bool {
    &&& parts.len() == 8
    &&& parts[0] == seq!['S']
    &&& canonical_decimal(Some(parts[1]), 255) == Ok::<nat, DecimalError>(1)
    &&& canonical_decimal(Some(parts[2]), 0xffff_ffff_ffff) == Ok::<nat, DecimalError>(5)
    &&& canonical_decimal(Some(parts[3]), u32::MAX as nat) == Ok::<nat, DecimalError>(21)
    &&& forall|k: int| 4 <= k < 8 ==> #[trigger] canonical_decimal(Some(parts[k]), u32::MAX as nat) is Ok
}

/// No subauthority is malformed exactly when each is a canonical decimal of
/// at most 32 bits.
proof fn lemma_first_bad_none(subs: Seq<Seq<char>>)
    ensures
        first_bad_subauthority(subs) is None <==> forall|k: int|
            0 <= k < subs.len() ==> #[trigger] canonical_decimal(Some(subs[k]), u32::MAX as nat) is Ok,
    decreases subs.len(),
{
    if subs.len() > 0 {
        lemma_first_bad_none(subs.drop_last());
        if first_bad_subauthority(subs) is None {
            assert forall|k: int| 0 <= k < subs.len() implies #[trigger] canonical_decimal(
                Some(subs[k]),
                u32::MAX as nat,
            ) is Ok by {
                if k < subs.len() - 1 {
                    assert(subs.drop_last()[k] == subs[k]);
                }
            }
        } else {
            if forall|k: int|
                0 <= k < subs.len() ==> #[trigger] canonical_decimal(Some(subs[k]), u32::MAX as nat) is Ok {
                assert forall|k: int| 0 <= k < subs.drop_last().len() implies #[trigger] canonical_decimal(
                    Some(subs.drop_last()[k]),
                    u32::MAX as nat,
                ) is Ok by {
                    assert(subs.drop_last()[k] == subs[k]);
                }
                assert(canonical_decimal(Some(subs[subs.len() - 1]), u32::MAX as nat) is Ok);
            }
        }
    }
}

/// Law: a SID is a canonical account SID exactly when it is `S-1-5-21-a-b-c-d`
/// written with `-` between its pieces, each field a canonical decimal
/// within its bound.
pub proof fn lemma_canonical_sid_form(sid: Seq<char>)
    ensures
        canonical_sid_check(sid) is Ok <==> exists|parts: Seq<Seq<char>>|
            account_sid_parts(parts) && #[trigger] join_on(parts, '-') == sid,
{
    let segs = split_on(sid, '-');
    lemma_split_nonempty(sid, '-');
    if canonical_sid_check(sid) is Ok {
        lemma_join_split(sid, '-');
        let subs = segs.skip(3);
        lemma_first_bad_none(subs);
        assert forall|k: int| 4 <= k < 8 implies #[trigger] canonical_decimal(
            Some(segs[k]),
            u32::MAX as nat,
        ) is Ok by {
            assert(subs[k - 3] == segs[k]);
        }
        assert(subs[0] == segs[3]);
        assert(account_sid_parts(segs));
    }
    if exists|parts: Seq<Seq<char>>| account_sid_parts(parts) && #[trigger] join_on(parts, '-') == sid {
        let parts = choose|parts: Seq<Seq<char>>| account_sid_parts(parts) && #[trigger] join_on(parts, '-') == sid;
        assert forall|k: int| 0 <= k < parts.len() implies !has_char(#[trigger] parts[k], '-') by {
            if k == 0 {
                if has_char(parts[0], '-') {
                    let i = choose|i: int| 0 <= i < parts[0].len() && parts[0][i] == '-';
                    assert(parts[0][0] == 'S');
                }
            } else {
                let bound: nat = if k == 1 {
                    255
                } else if k == 2 {
                    0xffff_ffff_ffff
                } else {
                    u32::MAX as nat
                };
                assert(canonical_decimal(Some(parts[k]), bound) is Ok);
                if has_char(parts[k], '-') {
                    let i = choose|i: int| 0 <= i < parts[k].len() && parts[k][i] == '-';
                    assert(is_digit(parts[k][i]));
                }
            }
        }
        lemma_split_join(parts, '-');
        assert(segs == parts);
        let subs = segs.skip(3);
        lemma_first_bad_none(subs);
        assert forall|k: int| 0 <= k < subs.len() implies #[trigger] canonical_decimal(
            Some(subs[k]),
            u32::MAX as nat,
        ) is Ok by {
            assert(subs[k] == parts[k + 3]);
        }
        assert(subs[0] == parts[3]);
    }
}

/// Checks that a SID is a canonical domain or local account SID.
pub fn validate_canonical_sid(sid: &str) -> (r: Result<(), SidError>)
    ensures
        r == canonical_sid_check(sid@),
{
    let chars = chars_of(sid);
    let segs = split_chars(&chars, '-');
    proof {
        lemma_split_nonempty(sid@, '-');
    }
    let ghost sp = split_on(sid@, '-');
    if !(segs[0].len() == 1 && segs[0][0] == 'S') {
        assert(segs@[0]@ == sp[0]);
        assert(sp[0] != seq!['S']);
        return Err(SidError::NotSidPrefix);
    }
    assert(segs@[0]@ =~= seq!['S']);
    let revision = match parse_canonical_decimal(
        if segs.len() > 1 {
            Some(&segs[1])
        } else {
            None
        },
        255,
    ) {
        Ok(v) => v,
        Err(e) => {
            return Err(SidError::Field(SidField::Revision, e));
        },
    };
    if revision != 1 {
        return Err(SidError::UnsupportedRevision);
    }
    let authority = match parse_canonical_decimal(
        if segs.len() > 2 {
            Some(&segs[2])
        } else {
            None
        },
        0xffff_ffff_ffff,
    ) {
        Ok(v) => v,
        Err(e) => {
            return Err(SidError::Field(SidField::IdentifierAuthority, e));
        },
    };
    if authority != 5 {
        return Err(SidError::NotNtAuthority);
    }
    let count: usize = if segs.len() > 3 {
        segs.len() - 3
    } else {
        0
    };
    let ghost subs = if sp.len() > 3 {
        sp.skip(3)
    } else {
        seq![]
    };
    assert(subs.len() == count);
    if count == 0 {
        return Err(SidError::NoSubauthority);
    }
    if count != 5 {
        return Err(SidError::NotAccountSid);
    }
    assert(segs@[1]@ == sp[1]);
    assert(segs@[2]@ == sp[2]);
    assert forall|i: int| 0 <= i < 5 implies #[trigger] subs[i] == segs@[3 + i]@ by {
        assert(segs@[3 + i]@ == sp[3 + i]);
    }
    let mut first: u64 = 0;
    let mut k: usize = 0;
    while k < 5
        invariant
            k <= 5,
            segs.len() == 8,
            subs.len() == 5,
            sp == split_on(sid@, '-'),
            sp.len() == 8,
            subs == sp.skip(3),
            sp[0] == seq!['S'],
            canonical_decimal(segment_at(sp, 1), 255) == Ok::<nat, DecimalError>(1),
            canonical_decimal(segment_at(sp, 2), 0xffff_ffff_ffff) == Ok::<nat, DecimalError>(5),
            forall|i: int| 0 <= i < 5 ==> #[trigger] subs[i] == segs@[3 + i]@,
            first_bad_subauthority(subs.take(k as int)) is None,
            k > 0 ==> first == digits_value(subs[0]),
        decreases 5 - k,
    {
        assert(subs.take(k + 1).drop_last() =~= subs.take(k as int));
        assert(subs.take(k + 1).last() == segs@[3 + k]@);
        match parse_canonical_decimal(Some(&segs[3 + k]), 4294967295) {
            Ok(v) => {
                if k == 0 {
                    first = v;
                }
            },
            Err(e) => {
                proof {
                    assert(canonical_decimal(Some(subs[k as int]), u32::MAX as nat) == Err::<
                        nat,
                        DecimalError,
                    >(e));
                    assert(first_bad_subauthority(subs.take(k + 1)) == Some(e));
                    lemma_first_bad_extends(subs, (k + 1) as int, e);
                }
                return Err(SidError::Field(SidField::Subauthority, e));
            },
        }
        k += 1;
    }
    assert(subs.take(5) =~= subs);
    if first != 21 {
        return Err(SidError::NotAccountSid);
    }
    Ok(())
}

proof fn lemma_first_bad_extends(subs: Seq<Seq<char>>, k: int, e: DecimalError)
    requires
        0 <= k <= subs.len(),
        first_bad_subauthority(subs.take(k)) == Some(e),
    ensures
        first_bad_subauthority(subs) == Some(e),
    decreases subs.len() - k,
{
    if k < subs.len() {
        assert(subs.take(k + 1).drop_last() =~= subs.take(k));
        lemma_first_bad_extends(subs, k + 1, e);
    } else {
        assert(subs.take(k) =~= subs);
    }
}

/// The security descriptor of an administrator pipe: SYSTEM, the
/// Administrators group and the account itself get generic all access.
pub open spec fn admin_pipe_sddl_text(user_sid: Seq<char>) -> Seq<char> {
    "D:P(A;;GA;;;SY)(A;;GA;;;BA)(A;;GA;;;"@ + user_sid + ")"@
}

/// The security descriptor of a broker pipe: SYSTEM and Administrators get
/// generic all access, the account only read and write.
pub open spec fn client_pipe_sddl_text(user_sid: Seq<char>) -> Seq<char> {
    "D:P(A;;GA;;;SY)(A;;GA;;;BA)(A;;0x"@ + upper_hex8(CLIENT_READ_WRITE_WITHOUT_CREATE_INSTANCE)
        + ";;;"@ + user_sid + ")"@
}

/// The uppercase hexadecimal digit of a value below sixteen.
pub open spec fn upper_hex_digit(n: nat) -> char {
    if n < 10 {
        (('0' as u32) + n) as char
    } else {
        (('A' as u32) + (n - 10)) as char
    }
}

/// Eight uppercase hexadecimal digits of a 32-bit value (`{:08X}`).
pub open spec fn upper_hex8(n: u32) -> Seq<char> {
    Seq::new(8, |i: int| upper_hex_digit(((n as int / pow16(7 - i)) % 16) as nat))
}

/// Sixteen to the power `e`.
pub open spec fn pow16(e: int) -> int
    decreases e,
{
    if e <= 0 {
        1
    } else {
        16 * pow16(e - 1)
    }
}

fn upper_hex8_chars(n: u32) -> (r: Vec<char>)
    ensures
        r@ == upper_hex8(n),
{
    let mut r: Vec<char> = Vec::new();
    let mut div: u32 = 268435456;
    let mut i: usize = 0;
    assert(pow16(7) == 268435456) by {
        reveal_with_fuel(pow16, 8);
    }
    while i < 8
        invariant
            i <= 8,
            div as int == pow16(7 - i as int),
            div > 0,
            r@.len() == i,
            forall|k: int| 0 <= k < i ==> r@[k] == upper_hex8(n)[k],
        decreases 8 - i,
    {
        let d = ((n / div) % 16) as u8;
        let c = if d < 10 {
            ((48 + d) as u8) as char
        } else {
            ((55 + d) as u8) as char
        };
        r.push(c);
        if i < 7 {
            assert(pow16(7 - i as int) == 16 * pow16(7 - i - 1));
            div = div / 16;
        }
        i += 1;
    }
    assert(r@ =~= upper_hex8(n));
    r
}

/// The security descriptor of an administrator pipe for a canonical
/// account SID.
pub fn admin_pipe_sddl(user_sid: &str) -> (r: Result<String, SidError>)
    ensures
        canonical_sid_check(user_sid@) is Err ==> r == Err::<String, SidError>(
            canonical_sid_check(user_sid@)->Err_0,
        ),
        canonical_sid_check(user_sid@) is Ok ==> (r matches Ok(s) && s@ == admin_pipe_sddl_text(
            user_sid@,
        )),
{
    match validate_canonical_sid(user_sid) {
        Err(e) => Err(e),
        Ok(()) => {
            let mut v: Vec<char> = Vec::new();
            push_str(&mut v, "D:P(A;;GA;;;SY)(A;;GA;;;BA)(A;;GA;;;");
            push_str(&mut v, user_sid);
            push_str(&mut v, ")");
            Ok(string_of(&v))
        },
    }
}

/// The security descriptor of an exec or Computer Use broker pipe for a
/// canonical account SID: the account may read and write the pipe but not
/// create another instance of it.
pub fn client_pipe_sddl(user_sid: &str) -> (r: Result<String, SidError>)
    ensures
        canonical_sid_check(user_sid@) is Err ==> r == Err::<String, SidError>(
            canonical_sid_check(user_sid@)->Err_0,
        ),
        canonical_sid_check(user_sid@) is Ok ==> (r matches Ok(s) && s@ == client_pipe_sddl_text(
            user_sid@,
        )),
{
    match admin_pipe_sddl(user_sid) {
        Err(e) => Err(e),
        Ok(_) => {
            let mut v: Vec<char> = Vec::new();
            push_str(&mut v, "D:P(A;;GA;;;SY)(A;;GA;;;BA)(A;;0x");
            let hex = upper_hex8_chars(CLIENT_READ_WRITE_WITHOUT_CREATE_INSTANCE);
            push_chars(&mut v, &hex);
            push_str(&mut v, ";;;");
            push_str(&mut v, user_sid);
            push_str(&mut v, ")");
            Ok(string_of(&v))
        },
    }
}

/// The exec broker's pipe security descriptor.
pub fn exec_pipe_sddl(user_sid: &str) -> (r: Result<String, SidError>)
    ensures
        canonical_sid_check(user_sid@) is Err ==> r == Err::<String, SidError>(
            canonical_sid_check(user_sid@)->Err_0,
        ),
        canonical_sid_check(user_sid@) is Ok ==> (r matches Ok(s) && s@ == client_pipe_sddl_text(
            user_sid@,
        )),
{
    client_pipe_sddl(user_sid)
}

/// The Computer Use broker's pipe security descriptor.
pub fn computer_use_pipe_sddl(user_sid: &str) -> (r: Result<String, SidError>)
    ensures
        canonical_sid_check(user_sid@) is Err ==> r == Err::<String, SidError>(
            canonical_sid_check(user_sid@)->Err_0,
        ),
        canonical_sid_check(user_sid@) is Ok ==> (r matches Ok(s) && s@ == client_pipe_sddl_text(
            user_sid@,
        )),
{
    client_pipe_sddl(user_sid)
}

/// Law: the access a broker pipe grants its client never includes
/// `FILE_CREATE_PIPE_INSTANCE`, so only the elevated broker can create
/// another instance of the pipe.
pub proof fn lemma_client_access_cannot_create_instances()
    ensures
        CLIENT_READ_WRITE_WITHOUT_CREATE_INSTANCE & 4 == 0,
{
    assert(0x0012_019bu32 & 4 == 0) by (bit_vector);
}

/// Whether `p` occurs in `t`.
pub open spec fn contains_text(t: Seq<char>, p: Seq<char>) -> bool {
    exists|i: int| 0 <= i && i + p.len() <= t.len() && #[trigger] t.subrange(i, i + p.len()) == p
}

/// Joined pieces are at least as long as the separators between them.
proof fn lemma_join_len(parts: Seq<Seq<char>>, sep: char)
    requires
        parts.len() >= 1,
    ensures
        join_on(parts, sep).len() >= parts.len() - 1,
    decreases parts.len(),
{
    if parts.len() > 1 {
        lemma_join_len(parts.drop_last(), sep);
    }
}

/// A canonical account SID is written with `S`, `-` and digits only, and
/// has more than one character.
proof fn lemma_account_sid_chars(sid: Seq<char>)
    requires
        canonical_sid_check(sid) is Ok,
    ensures
        sid.len() >= 2,
        forall|k: int| 0 <= k < sid.len() ==> #[trigger] sid[k] == 'S' || sid[k] == '-' || is_digit(sid[k]),
{
    lemma_canonical_sid_form(sid);
    let parts = choose|parts: Seq<Seq<char>>| account_sid_parts(parts) && #[trigger] join_on(parts, '-') == sid;
    lemma_join_len(parts, '-');
    assert forall|k: int| 0 <= k < sid.len() implies #[trigger] sid[k] == 'S' || sid[k] == '-' || is_digit(
        sid[k],
    ) by {
        lemma_join_chars(parts, '-', k);
        if sid[k] != '-' {
            let (j, m) = choose|j: int, m: int|
                0 <= j < parts.len() && 0 <= m < parts[j].len() && #[trigger] parts[j][m] == sid[k];
            if j == 0 {
                assert(parts[0][m] == 'S');
            } else {
                let bound: nat = if j == 1 {
                    255
                } else if j == 2 {
                    0xffff_ffff_ffff
                } else {
                    u32::MAX as nat
                };
                assert(canonical_decimal(Some(parts[j]), bound) is Ok);
                assert(is_digit(parts[j][m]));
            }
        }
    }
}

/// Law: the exec and Computer Use pipes accept the same SIDs as the
/// administrator pipe (all three answer by [`canonical_sid_check`]), and
/// their descriptor differs from the administrator pipe's only in the
/// account's access: `0x0012019B`, read and write without
/// `FILE_CREATE_PIPE_INSTANCE`, and never generic all for the account.
pub proof fn lemma_client_pipe_sddl(sid: Seq<char>)
    requires
        canonical_sid_check(sid) is Ok,
    ensures
        client_pipe_sddl_text(sid) == "D:P(A;;GA;;;SY)(A;;GA;;;BA)(A;;0x0012019B;;;"@ + sid + ")"@,
        admin_pipe_sddl_text(sid) == "D:P(A;;GA;;;SY)(A;;GA;;;BA)(A;;GA;;;"@ + sid + ")"@,
        !contains_text(client_pipe_sddl_text(sid), "GA;;;"@ + sid),
        CLIENT_READ_WRITE_WITHOUT_CREATE_INSTANCE & 4 == 0,
{
    lemma_client_access_cannot_create_instances();
    reveal_strlit("D:P(A;;GA;;;SY)(A;;GA;;;BA)(A;;0x");
    reveal_strlit("D:P(A;;GA;;;SY)(A;;GA;;;BA)(A;;0x0012019B;;;");
    reveal_strlit(";;;");
    reveal_strlit("GA;;;");
    reveal_strlit(")");
    reveal_with_fuel(pow16, 8);
    let hex = upper_hex8(CLIENT_READ_WRITE_WITHOUT_CREATE_INSTANCE);
    assert(pow16(0) == 1 && pow16(1) == 16 && pow16(2) == 256 && pow16(3) == 4096);
    assert(pow16(4) == 65536 && pow16(5) == 1048576 && pow16(6) == 16777216 && pow16(7) == 268435456);
    let n: int = 0x0012_019b;
    assert(n / 268435456 == 0 && n / 16777216 == 0 && n / 1048576 == 1 && n / 65536 == 18);
    assert(n / 4096 == 288 && n / 256 == 4609 && n / 16 == 73753 && n / 1 == 1180059);
    assert(hex =~= seq!['0', '0', '1', '2', '0', '1', '9', 'B']);
    let prefix = "D:P(A;;GA;;;SY)(A;;GA;;;BA)(A;;0x0012019B;;;"@;
    assert("D:P(A;;GA;;;SY)(A;;GA;;;BA)(A;;0x"@ + hex + ";;;"@ =~= prefix);
    let t = prefix + sid + ")"@;
    assert(client_pipe_sddl_text(sid) =~= t);
    lemma_account_sid_chars(sid);
    let p = "GA;;;"@ + sid;
    if contains_text(t, p) {
        let i = choose|i: int| 0 <= i && i + p.len() <= t.len() && #[trigger] t.subrange(i, i + p.len()) == p;
        assert(t[i] == 'G') by {
            assert(t.subrange(i, i + p.len())[0] == p[0]);
        }
        assert(t[i + 5] == sid[0]) by {
            assert(t.subrange(i, i + p.len())[5] == p[5]);
        }
        assert(t[i + 6] == sid[1]) by {
            assert(t.subrange(i, i + p.len())[6] == p[6]);
        }
        if i < 44 {
            assert(t[i] == prefix[i]);
            assert(i == 7 || i == 19);
            if i == 7 {
                assert(t[13] == 'Y');
            } else {
                assert(t[24] == 'B');
            }
        } else {
            assert(t[i] == sid[i - 44] || t[i] == ')');
        }
    }
}

/// Whether a character stays as it is in a pipe name.
pub open spec fn pipe_safe(c: char) -> bool {
    ('a' <= c && c <= 'z') || ('A' <= c && c <= 'Z') || ('0' <= c && c <= '9') || c == '-'
}

/// A session id with every other character replaced by `-`.
pub open spec fn sanitize_session(s: Seq<char>) -> Seq<char> {
    s.map_values(|c: char| if pipe_safe(c) { c } else { '-' })
}

/// The session component of a pipe name: the sanitized session id, or, when
/// that is too long, its first 149 characters, `-` and the SHA-256 of the
/// session id's UTF-8 bytes in lowercase hexadecimal.
pub open spec fn pipe_component(session_id: Seq<char>) -> Seq<char> {
    let sanitized = sanitize_session(session_id);
    if sanitized.len() > MAX_PIPE_COMPONENT_LEN {
        sanitized.take(149) + seq!['-'] + sha256_hex(encode_utf8(session_id))
    } else {
        sanitized
    }
}

/// The administrator pipe name of a session.
pub open spec fn admin_pipe_name_spec(session_id: Seq<char>) -> Seq<char> {
    ADMIN_PIPE_PREFIX@ + pipe_component(session_id)
}

/// The administrator pipe name of a session. It is never longer than 240
/// characters, and past the prefix it holds only ASCII letters, digits and
/// `-`.
pub fn admin_pipe_name(session_id: &str) -> (r: String)
    ensures
        r@ == admin_pipe_name_spec(session_id@),
        r@.len() <= MAX_ADMIN_PIPE_NAME_LEN,
        forall|i: int| ADMIN_PIPE_PREFIX@.len() <= i < r@.len() ==> pipe_safe(#[trigger] r@[i]),
{
    proof {
        reveal_strlit("\\\\.\\pipe\\codex-plus-admin-");
    }
    let chars = chars_of(session_id);
    let mut sanitized: Vec<char> = Vec::new();
    let mut i: usize = 0;
    while i < chars.len()
        invariant
            i <= chars.len(),
            chars@ == session_id@,
            sanitized@ == sanitize_session(session_id@).take(i as int),
            forall|k: int| 0 <= k < sanitized@.len() ==> pipe_safe(#[trigger] sanitized@[k]),
        decreases chars.len() - i,
    {
        let c = chars[i];
        let safe = ('a' <= c && c <= 'z') || ('A' <= c && c <= 'Z') || ('0' <= c && c <= '9') || c
            == '-';
        if safe {
            sanitized.push(c);
        } else {
            sanitized.push('-');
        }
        assert(sanitize_session(session_id@).take(i + 1) =~= sanitize_session(session_id@).take(
            i as int,
        ).push(sanitized@[i as int]));
        i += 1;
    }
    assert(sanitize_session(session_id@).take(chars.len() as int) =~= sanitize_session(
        session_id@,
    ));
    let component = if sanitized.len() > MAX_PIPE_COMPONENT_LEN {
        let mut c = sub_chars(&sanitized, 0, 149);
        c.push('-');
        let owned = session_id.to_owned();
        let bytes = utf8_bytes(&owned);
        let digest = sha256_hex_of(bytes.as_slice());
        proof {
            crate::encoding::lemma_hex_lower_shape(crate::encoding::sha256(bytes@));
        }
        let dc = chars_of(digest.as_str());
        push_chars(&mut c, &dc);
        assert forall|k: int| 0 <= k < c@.len() implies pipe_safe(#[trigger] c@[k]) by {
            if k < 149 {
                assert(c@[k] == sanitized@[k]);
            } else if k > 149 {
                assert(c@[k] == dc@[k - 150]);
                assert(crate::encoding::is_lower_hex(dc@[k - 150]));
            }
        }
        c
    } else {
        sanitized
    };
    assert(component@.len() <= MAX_PIPE_COMPONENT_LEN);
    assert(forall|k: int| 0 <= k < component@.len() ==> pipe_safe(#[trigger] component@[k]));
    let mut v: Vec<char> = Vec::new();
    push_str(&mut v, ADMIN_PIPE_PREFIX);
    push_chars(&mut v, &component);
    assert(ADMIN_PIPE_PREFIX@.len() == 26);
    assert forall|i: int| ADMIN_PIPE_PREFIX@.len() <= i < v@.len() implies pipe_safe(
        #[trigger] v@[i],
    ) by {
        assert(v@[i] == component@[i - 26]);
    }
    string_of(&v)
}

/// A Windows account's identity as its token states it.
#[derive(Debug, Clone, PartialEq, Eq)]
pub struct WindowsIdentity {
    pub user_sid: String,
    pub logon_sid: String,
    pub elevated: bool,
    pub integrity_rid: u32,
}

/// Why the identity of a process could not be read.
#[derive(Debug, Clone, Copy, PartialEq, Eq, Structural)]
pub enum IdentityError {
    /// Windows identity primitives are not available on this platform.
    Unsupported,
    /// The token has no logon SID.
    MissingLogonSid,
    /// The token could not be queried.
    QueryFailed,
}

/// Whether a process identity belongs to the expected account and logon
/// session (SIDs compared ignoring ASCII case); an unreadable identity is
/// never trusted.
pub fn trusted_client_identity(
    identity: Result<WindowsIdentity, IdentityError>,
    expected_user_sid: &str,
    expected_logon_sid: &str,
) -> (r: bool)
    ensures
        r == (identity matches Ok(id) && eq_ignore_case(id.user_sid@, expected_user_sid@)
            && eq_ignore_case(id.logon_sid@, expected_logon_sid@)),
{
    match identity {
        Ok(id) => str_eq_ignore_case(id.user_sid.as_str(), expected_user_sid)
            && str_eq_ignore_case(id.logon_sid.as_str(), expected_logon_sid),
        Err(_) => false,
    }
}

/// The identity of the current process; this build has no Windows token
/// access and reports `Unsupported`.
pub fn current_windows_identity() -> (r: Result<WindowsIdentity, IdentityError>)
    ensures
        r == Err::<WindowsIdentity, IdentityError>(IdentityError::Unsupported),
{
    Err(IdentityError::Unsupported)
}

/// The identity of a process; reported `Unsupported` in this build.
pub fn process_windows_identity(process_id: u32) -> (r: Result<WindowsIdentity, IdentityError>)
    ensures
        r == Err::<WindowsIdentity, IdentityError>(IdentityError::Unsupported),
{
    Err(IdentityError::Unsupported)
}

/// Whether a process runs at high integrity; reported `Unsupported` in this
/// build.
pub fn process_has_high_integrity(process_id: u32) -> (r: Result<bool, IdentityError>)
    ensures
        r == Err::<bool, IdentityError>(IdentityError::Unsupported),
{
    Err(IdentityError::Unsupported)
}

/// A job object that kills its processes when it is closed.
#[derive(Debug)]
pub struct KillOnCloseJob;

impl KillOnCloseJob {
    /// Creates the job; reported `Unsupported` in this build.
    pub fn new(name: &str) -> (r: Result<KillOnCloseJob, IdentityError>)
        ensures
            r matches Err(e) && e == IdentityError::Unsupported,
    {
        Err(IdentityError::Unsupported)
    }
}

} // verus!
