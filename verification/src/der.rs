//! The Distinguished Encoding Rules of ASN.1, as far as certificates need
//! them: an element is a one-byte tag, its definite length in the shortest
//! form, and its content.
use vstd::prelude::*;

verus! {

/// `256` to the power `k`.
pub open spec fn spec_pow256(k: nat) -> nat
    decreases k,
{
    if k == 0 {
        1
    } else {
        256 * spec_pow256((k - 1) as nat)
    }
}

/// The big-endian bytes of `n` without a leading zero byte; none for zero.
pub open spec fn spec_be_bytes(n: nat) -> Seq<u8>
    decreases n,
{
    if n == 0 {
        Seq::empty()
    } else {
        spec_be_bytes(n / 256) + seq![(n % 256) as u8]
    }
}

/// The number whose big-endian bytes are `bytes`.
pub open spec fn spec_be_value(bytes: Seq<u8>) -> nat
    decreases bytes.len(),
{
    if bytes.len() == 0 {
        0
    } else {
        spec_be_value(bytes.drop_last()) * 256 + bytes.last() as nat
    }
}

/// The length octets of a content of `n` bytes: `n` itself below 128, else
/// `0x80` plus the count of `n`'s big-endian bytes, then those bytes.
pub open spec fn spec_der_length(n: nat) -> Seq<u8> {
    if n < 128 {
        seq![n as u8]
    } else {
        seq![(128 + spec_be_bytes(n).len()) as u8] + spec_be_bytes(n)
    }
}

/// The element with tag `tag` and content `content`.
pub open spec fn spec_tlv(tag: u8, content: Seq<u8>) -> Seq<u8> {
    seq![tag] + spec_der_length(content.len()) + content
}

/// Whether `tag` fits in one byte (its low five bits are not all set, which
/// would announce a longer tag).
pub open spec fn spec_short_tag(tag: u8) -> bool {
    tag % 32 != 31
}

/// The header length and content length of the element at the start of
/// `s`, where its length octets are in the shortest form and the long form
/// takes at most eight bytes.
pub open spec fn spec_read_header(s: Seq<u8>) -> Option<(nat, nat)> {
    if s.len() < 2 || !spec_short_tag(s[0]) {
        None
    } else if s[1] < 128 {
        Some((2, s[1] as nat))
    } else {
        let k = (s[1] - 128) as nat;
        if 1 <= k <= 8 && s.len() >= 2 + k && s[2] != 0 && spec_be_value(
            s.subrange(2, 2 + k as int),
        ) >= 128 {
            Some(((2 + k) as nat, spec_be_value(s.subrange(2, 2 + k as int))))
        } else {
            None
        }
    }
}

/// The element at the start of `s`: its tag, its content and what follows
/// it; `None` when `s` does not start with a whole element.
pub open spec fn spec_read_tlv(s: Seq<u8>) -> Option<(u8, Seq<u8>, Seq<u8>)> {
    match spec_read_header(s) {
        Some((h, n)) => if h + n <= s.len() {
            Some((s[0], s.subrange(h as int, (h + n) as int), s.subrange((h + n) as int, s.len() as int)))
        } else {
            None
        },
        None => None,
    }
}

/// The contents of the elements that make up `s` exactly, one for each of
/// `tags` and with that tag, in order; `None` when `s` is not such.
pub open spec fn spec_read_elements(s: Seq<u8>, tags: Seq<u8>) -> Option<Seq<Seq<u8>>>
    decreases tags.len(),
{
    if tags.len() == 0 {
        if s.len() == 0 {
            Some(Seq::empty())
        } else {
            None
        }
    } else {
        match spec_read_tlv(s) {
            Some((t, c, r)) => if t == tags[0] {
                match spec_read_elements(r, tags.drop_first()) {
                    Some(cs) => Some(seq![c] + cs),
                    None => None,
                }
            } else {
                None
            },
            None => None,
        }
    }
}

proof fn lemma_be_round_trip(n: nat)
    ensures
        spec_be_value(spec_be_bytes(n)) == n,
        n > 0 ==> spec_be_bytes(n).len() > 0 && spec_be_bytes(n)[0] != 0,
    decreases n,
{
    if n > 0 {
        lemma_be_round_trip(n / 256);
        let b = spec_be_bytes(n);
        assert(b.drop_last() =~= spec_be_bytes(n / 256));
        if n / 256 == 0 {
            assert(b[0] == (n % 256) as u8);
        } else {
            assert(b[0] == spec_be_bytes(n / 256)[0]);
        }
    }
}

proof fn lemma_be_len(n: nat, k: nat)
    requires
        n < spec_pow256(k),
    ensures
        spec_be_bytes(n).len() <= k,
    decreases n,
{
    if n > 0 {
        assert(k > 0);
        let p = spec_pow256((k - 1) as nat);
        assert(n / 256 < p) by (nonlinear_arith)
            requires
                n < 256 * p,
        ;
        lemma_be_len(n / 256, (k - 1) as nat);
    }
}

proof fn lemma_pow256_8()
    ensures
        spec_pow256(8) == 0x1_0000_0000_0000_0000,
{
    reveal_with_fuel(spec_pow256, 9);
}

/// Reading an element back gives its tag, its content and what follows.
pub proof fn lemma_read_tlv(tag: u8, content: Seq<u8>, rest: Seq<u8>)
    requires
        spec_short_tag(tag),
        content.len() < 0x1_0000_0000_0000_0000,
    ensures
        spec_read_tlv(spec_tlv(tag, content) + rest) == Some((tag, content, rest)),
{
    let s = spec_tlv(tag, content) + rest;
    let n = content.len();
    let l = spec_der_length(n);
    let h = 1 + l.len();
    if n >= 128 {
        lemma_be_round_trip(n);
        lemma_pow256_8();
        lemma_be_len(n, 8);
        let b = spec_be_bytes(n);
        assert(s.subrange(2, 2 + b.len() as int) =~= b);
        assert(s[2] == b[0]);
    }
    assert(spec_read_header(s) == Some((h as nat, n)));
    assert(s.subrange(h as int, (h + n) as int) =~= content);
    assert(s.subrange((h + n) as int, s.len() as int) =~= rest);
}

/// Reading the elements of a run that starts with an element of the first
/// tag gives its content, then what the rest of the run gives.
pub proof fn lemma_read_elements_cons(tag: u8, content: Seq<u8>, rest: Seq<u8>, tags: Seq<u8>)
    requires
        spec_short_tag(tag),
        content.len() < 0x1_0000_0000_0000_0000,
    ensures
        spec_read_elements(spec_tlv(tag, content) + rest, seq![tag] + tags) == match spec_read_elements(
            rest,
            tags,
        ) {
            Some(cs) => Some(seq![content] + cs),
            None => None,
        },
{
    lemma_read_tlv(tag, content, rest);
    assert((seq![tag] + tags).drop_first() =~= tags);
}

/// The elements with tags `tags` and contents `contents`, one after another.
pub open spec fn spec_elements(tags: Seq<u8>, contents: Seq<Seq<u8>>) -> Seq<u8>
    decreases tags.len(),
{
    if tags.len() == 0 || contents.len() == 0 {
        Seq::empty()
    } else {
        spec_tlv(tags[0], contents[0]) + spec_elements(tags.drop_first(), contents.drop_first())
    }
}

/// A run of elements grows by one element at its end.
pub proof fn lemma_elements_push(tags: Seq<u8>, contents: Seq<Seq<u8>>, tag: u8, content: Seq<u8>)
    requires
        tags.len() == contents.len(),
    ensures
        spec_elements(tags.push(tag), contents.push(content)) == spec_elements(tags, contents)
            + spec_tlv(tag, content),
    decreases tags.len(),
{
    if tags.len() == 0 {
        let t1 = tags.push(tag);
        let c1 = contents.push(content);
        assert(t1.drop_first().len() == 0);
        assert(t1[0] == tag && c1[0] == content);
        assert(spec_elements(t1.drop_first(), c1.drop_first()) =~= Seq::<u8>::empty());
        assert(spec_elements(tags, contents) =~= Seq::<u8>::empty());
        assert(spec_elements(t1, c1) =~= spec_elements(tags, contents) + spec_tlv(tag, content));
    } else {
        lemma_elements_push(tags.drop_first(), contents.drop_first(), tag, content);
        assert(tags.push(tag).drop_first() =~= tags.drop_first().push(tag));
        assert(contents.push(content).drop_first() =~= contents.drop_first().push(content));
        assert(spec_elements(tags.push(tag), contents.push(content)) =~= spec_elements(tags, contents)
            + spec_tlv(tag, content));
    }
}

/// A run of elements is its first element, then the rest of the run.
pub proof fn lemma_elements_cons(tag: u8, content: Seq<u8>, tags: Seq<u8>, contents: Seq<Seq<u8>>)
    ensures
        spec_elements(seq![tag] + tags, seq![content] + contents) == spec_tlv(tag, content)
            + spec_elements(tags, contents),
{
    assert((seq![tag] + tags).drop_first() =~= tags);
    assert((seq![content] + contents).drop_first() =~= contents);
}

/// Each content of a run is shorter than the run.
pub proof fn lemma_elements_len(tags: Seq<u8>, contents: Seq<Seq<u8>>)
    requires
        tags.len() == contents.len(),
    ensures
        forall|i: int|
            0 <= i < contents.len() ==> (#[trigger] contents[i]).len() < spec_elements(
                tags,
                contents,
            ).len(),
    decreases tags.len(),
{
    if tags.len() > 0 {
        lemma_elements_len(tags.drop_first(), contents.drop_first());
        assert forall|i: int| 0 <= i < contents.len() implies (#[trigger] contents[i]).len()
            < spec_elements(tags, contents).len() by {
            if i > 0 {
                assert(contents[i] == contents.drop_first()[i - 1]);
            }
        }
    }
}

/// Reading back a run of elements gives their contents.
pub proof fn lemma_read_elements(tags: Seq<u8>, contents: Seq<Seq<u8>>)
    requires
        tags.len() == contents.len(),
        forall|i: int| 0 <= i < tags.len() ==> spec_short_tag(#[trigger] tags[i]),
        forall|i: int|
            0 <= i < contents.len() ==> (#[trigger] contents[i]).len() < 0x1_0000_0000_0000_0000,
    ensures
        spec_read_elements(spec_elements(tags, contents), tags) == Some(contents),
    decreases tags.len(),
{
    if tags.len() > 0 {
        let rest_tags = tags.drop_first();
        let rest = contents.drop_first();
        assert forall|i: int| 0 <= i < rest_tags.len() implies spec_short_tag(#[trigger] rest_tags[i]) by {
            assert(rest_tags[i] == tags[i + 1]);
        }
        assert forall|i: int| 0 <= i < rest.len() implies (#[trigger] rest[i]).len() < 0x1_0000_0000_0000_0000 by {
            assert(rest[i] == contents[i + 1]);
        }
        lemma_read_elements(rest_tags, rest);
        assert(spec_short_tag(tags[0]));
        assert(contents[0].len() < 0x1_0000_0000_0000_0000);
        lemma_read_elements_cons(tags[0], contents[0], spec_elements(rest_tags, rest), rest_tags);
        assert(seq![tags[0]] + rest_tags =~= tags);
        assert(seq![contents[0]] + rest =~= contents);
    }
}

/// Appends the big-endian bytes of `n`.
fn push_be_bytes(out: &mut Vec<u8>, n: usize)
    ensures
        final(out)@ == old(out)@ + spec_be_bytes(n as nat),
    decreases n,
{
    if n > 0 {
        push_be_bytes(out, n / 256);
        out.push((n % 256) as u8);
        assert(spec_be_bytes(n as nat) == spec_be_bytes((n / 256) as nat) + seq![(n % 256) as u8]);
        assert(final(out)@ =~= old(out)@ + spec_be_bytes(n as nat));
    }
}

/// Appends `bytes`.
pub fn push_bytes(out: &mut Vec<u8>, bytes: &[u8])
    ensures
        final(out)@ == old(out)@ + bytes@,
{
    let mut i: usize = 0;
    while i < bytes.len()
        invariant
            i <= bytes@.len(),
            out@ == old(out)@ + bytes@.subrange(0, i as int),
        decreases bytes.len() - i,
    {
        out.push(bytes[i]);
        i = i + 1;
        assert(out@ =~= old(out)@ + bytes@.subrange(0, i as int));
    }
    assert(bytes@.subrange(0, bytes@.len() as int) =~= bytes@);
}

/// Appends the element with tag `tag` and content `content`.
pub fn push_tlv(out: &mut Vec<u8>, tag: u8, content: &[u8])
    ensures
        final(out)@ == old(out)@ + spec_tlv(tag, content@),
{
    let ghost start = out@;
    out.push(tag);
    let n = content.len();
    if n < 128 {
        out.push(n as u8);
    } else {
        let mut be: Vec<u8> = Vec::new();
        push_be_bytes(&mut be, n);
        proof {
            lemma_pow256_8();
            lemma_be_len(n as nat, 8);
            assert(be@ =~= spec_be_bytes(n as nat));
        }
        out.push((128 + be.len()) as u8);
        push_bytes(out, be.as_slice());
    }
    assert(out@ =~= start + seq![tag] + spec_der_length(content@.len()));
    push_bytes(out, content);
    assert(out@ =~= start + spec_tlv(tag, content@));
}

/// The element that starts at `start` in `s[start..end]`: its tag and the
/// bounds of its content, which what follows it starts right after.
pub fn read_tlv(s: &[u8], start: usize, end: usize) -> (res: Option<(u8, usize, usize)>)
    requires
        start <= end <= s@.len(),
    ensures
        res is Some <==> spec_read_tlv(s@.subrange(start as int, end as int)) is Some,
        res matches Some((tag, cs, ce)) ==> start <= cs <= ce <= end && spec_read_tlv(
            s@.subrange(start as int, end as int),
        ) == Some((tag, s@.subrange(cs as int, ce as int), s@.subrange(ce as int, end as int))),
{
    let ghost w = s@.subrange(start as int, end as int);
    if end - start < 2 {
        return None;
    }
    let tag = s[start];
    assert(w[0] == tag);
    if tag % 32 == 31 {
        return None;
    }
    let b = s[start + 1];
    assert(w[1] == b);
    let hdr: usize;
    let n: u64;
    if b < 128 {
        hdr = 2;
        n = b as u64;
    } else {
        let k: usize = (b - 128) as usize;
        if k < 1 || k > 8 || end - start - 2 < k {
            return None;
        }
        if s[start + 2] == 0 {
            assert(w[2] == 0);
            return None;
        }
        let mut v: u64 = 0;
        let mut i: usize = 0;
        while i < k
            invariant
                start <= end <= s@.len(),
                1 <= k <= 8,
                2 + k <= end - start,
                i <= k,
                w == s@.subrange(start as int, end as int),
                v as nat == spec_be_value(w.subrange(2, 2 + i as int)),
                (v as nat) < spec_pow256(i as nat),
            decreases k - i,
        {
            let byte = s[start + 2 + i];
            proof {
                let p = spec_pow256(i as nat);
                assert(w.subrange(2, 2 + i + 1 as int).drop_last() =~= w.subrange(2, 2 + i as int));
                assert(w.subrange(2, 2 + i + 1 as int).last() == byte);
                assert((v as nat) * 256 + (byte as nat) < 256 * p) by (nonlinear_arith)
                    requires
                        (v as nat) < p,
                        (byte as nat) < 256,
                ;
                lemma_pow256_mono((i + 1) as nat, 8);
                lemma_pow256_8();
            }
            v = v * 256 + byte as u64;
            i = i + 1;
        }
        if v < 128 {
            return None;
        }
        hdr = 2 + k;
        n = v;
    }
    assert(spec_read_header(w) == Some((hdr as nat, n as nat)));
    if n > (end - start - hdr) as u64 {
        return None;
    }
    let cs = start + hdr;
    let ce = cs + n as usize;
    assert(w.subrange(hdr as int, hdr + n) =~= s@.subrange(cs as int, ce as int));
    assert(w.subrange(hdr + n, w.len() as int) =~= s@.subrange(ce as int, end as int));
    Some((tag, cs, ce))
}

/// The contents that `bounds` delimit in `s`.
pub open spec fn spec_contents(s: Seq<u8>, bounds: Seq<(usize, usize)>) -> Seq<Seq<u8>> {
    bounds.map_values(|b: (usize, usize)| s.subrange(b.0 as int, b.1 as int))
}

/// The bounds of the contents of the elements that make up `s[start..end]`
/// exactly, one for each of `tags` and with that tag, in order.
pub fn read_elements(s: &[u8], start: usize, end: usize, tags: &[u8]) -> (res: Option<
    Vec<(usize, usize)>,
>)
    requires
        start <= end <= s@.len(),
    ensures
        res is Some <==> spec_read_elements(s@.subrange(start as int, end as int), tags@) is Some,
        res matches Some(bounds) ==> {
            &&& bounds@.len() == tags@.len()
            &&& forall|j: int|
                0 <= j < bounds@.len() ==> start <= (#[trigger] bounds@[j]).0 <= bounds@[j].1 <= end
            &&& spec_read_elements(s@.subrange(start as int, end as int), tags@) == Some(
                spec_contents(s@, bounds@),
            )
        },
{
    let mut bounds: Vec<(usize, usize)> = Vec::new();
    let mut pos = start;
    let mut i: usize = 0;
    assert(tags@.subrange(0, tags@.len() as int) =~= tags@);
    assert(spec_contents(s@, bounds@) =~= Seq::empty());
    while i < tags.len()
        invariant
            start <= pos <= end <= s@.len(),
            i <= tags@.len(),
            bounds@.len() == i,
            forall|j: int|
                0 <= j < bounds@.len() ==> start <= (#[trigger] bounds@[j]).0 <= bounds@[j].1 <= end,
            spec_read_elements(s@.subrange(start as int, end as int), tags@) == match spec_read_elements(
                s@.subrange(pos as int, end as int),
                tags@.subrange(i as int, tags@.len() as int),
            ) {
                Some(cs) => Some(spec_contents(s@, bounds@) + cs),
                None => None,
            },
        decreases tags@.len() - i,
    {
        let ghost rest_tags = tags@.subrange(i as int, tags@.len() as int);
        assert(rest_tags[0] == tags@[i as int]);
        assert(rest_tags.drop_first() =~= tags@.subrange(i + 1, tags@.len() as int));
        match read_tlv(s, pos, end) {
            None => {
                return None;
            },
            Some((tag, cs, ce)) => {
                if tag != tags[i] {
                    return None;
                }
                let ghost old_bounds = bounds@;
                bounds.push((cs, ce));
                proof {
                    assert(spec_contents(s@, bounds@) =~= spec_contents(s@, old_bounds) + seq![
                        s@.subrange(cs as int, ce as int),
                    ]);
                    let tail = spec_read_elements(
                        s@.subrange(ce as int, end as int),
                        tags@.subrange(i + 1, tags@.len() as int),
                    );
                    if let Some(cs2) = tail {
                        assert(spec_contents(s@, old_bounds) + (seq![s@.subrange(cs as int, ce as int)]
                            + cs2) =~= spec_contents(s@, bounds@) + cs2);
                    }
                }
                pos = ce;
                i = i + 1;
            },
        }
    }
    if pos != end {
        return None;
    }
    assert(spec_contents(s@, bounds@) + Seq::empty() =~= spec_contents(s@, bounds@));
    Some(bounds)
}

proof fn lemma_pow256_mono(i: nat, j: nat)
    requires
        i <= j,
    ensures
        spec_pow256(i) <= spec_pow256(j),
    decreases j,
{
    if i < j {
        lemma_pow256_mono(i, (j - 1) as nat);
        assert(spec_pow256(j) == 256 * spec_pow256((j - 1) as nat));
    }
}

} // verus!
