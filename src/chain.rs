//! The rolling digest that binds each row to every row before it.
use vstd::prelude::*;
use vstd::string::StringExecFns;
use crate::cell::{CellValue, cell_text, into_string};

verus! {

/// Lowercase hex SHA-256 of the UTF-8 bytes of a text, as the `sha256` crate gives it.
pub uninterp spec fn sha256_hex(s: Seq<char>) -> Seq<char>;

/// Relies on `sha256::digest` on a `&str`: `hex::encode` of the 32-byte SHA-256
/// of the string's bytes, so always 64 characters.
#[verifier::external_body]
fn hex_digest(s: &str) -> (r: String)
    ensures
        r@ == sha256_hex(s@),
        r@.len() == 64,
{
    sha256::digest(s)
}

/// The length of every digest that [`sha256_hex`] yields.
pub open spec fn is_digest(d: Seq<char>) -> bool {
    d.len() == 64
}

/// The view of an optional string.
pub open spec fn opt_text(o: Option<String>) -> Option<Seq<char>> {
    match o {
        Some(s) => Some(s@),
        None => None,
    }
}

/// The texts of `parts` one after another.
pub open spec fn concat_all(parts: Seq<Seq<char>>) -> Seq<char>
    decreases parts.len(),
{
    if parts.len() == 0 {
        Seq::<char>::empty()
    } else {
        concat_all(parts.drop_last()) + parts.last()
    }
}

/// The digest of each cell's string projection, in column order.
pub open spec fn cell_digests(values: Seq<CellValue>) -> Seq<Seq<char>> {
    values.map_values(|v: CellValue| sha256_hex(cell_text(v)))
}

/// The text that is hashed last: the cell digests concatenated, then the previous
/// chain digest if there is one.
pub open spec fn chain_preimage(digests: Seq<Seq<char>>, prev: Option<Seq<char>>) -> Seq<char> {
    match prev {
        Some(p) => concat_all(digests) + p,
        None => concat_all(digests),
    }
}

/// The chain digest of a row, given the digest of the rows before it.
pub open spec fn chain_digest(values: Seq<CellValue>, prev: Option<Seq<char>>) -> Seq<char> {
    sha256_hex(chain_preimage(cell_digests(values), prev))
}

/// Joins the cell digests and appends the previous chain digest, if any.
pub fn chain_input(digests: &Vec<String>, prev: &Option<String>) -> (r: String)
    ensures
        r@ == chain_preimage(digests@.map_values(|d: String| d@), opt_text(*prev)),
{
    let ghost dv = digests@.map_values(|d: String| d@);
    let mut out = String::new();
    let mut i: usize = 0;
    while i < digests.len()
        invariant
            i <= digests@.len(),
            dv == digests@.map_values(|d: String| d@),
            out@ == concat_all(dv.take(i as int)),
        decreases digests@.len() - i,
    {
        out.append(digests[i].as_str());
        proof {
            assert(dv.take(i + 1).drop_last() =~= dv.take(i as int));
        }
        i = i + 1;
    }
    assert(dv.take(i as int) =~= dv);
    match prev {
        Some(p) => {
            out.append(p.as_str());
        },
        None => {},
    }
    out
}

/// Digest of each cell's string projection, in column order.
pub fn digest_cells(values: &Vec<CellValue>) -> (r: Vec<String>)
    ensures
        r@.map_values(|d: String| d@) == cell_digests(values@),
        forall|j: int| 0 <= j < r@.len() ==> is_digest(#[trigger] r@[j]@),
{
    let mut out: Vec<String> = Vec::new();
    let mut i: usize = 0;
    while i < values.len()
        invariant
            i <= values@.len(),
            out@.len() == i,
            forall|j: int| 0 <= j < i ==> #[trigger] out@[j]@ == sha256_hex(cell_text(values@[j])),
            forall|j: int| 0 <= j < i ==> is_digest(#[trigger] out@[j]@),
        decreases values@.len() - i,
    {
        let text = into_string(&values[i]);
        let d = hex_digest(text.as_str());
        out.push(d);
        i = i + 1;
    }
    assert(out@.map_values(|d: String| d@) =~= cell_digests(values@));
    out
}

/// Chain digest of a row: the hash of its cell digests concatenated with the
/// previous digest, or of the cell digests alone for the first row.
pub fn calculate_hash(values: &Vec<CellValue>, prev_hash: Option<String>) -> (r: String)
    ensures
        r@ == chain_digest(values@, opt_text(prev_hash)),
        is_digest(r@),
{
    let digests = digest_cells(values);
    let input = chain_input(&digests, &prev_hash);
    hex_digest(input.as_str())
}


/// Two rows whose cells have the same string projections, one by one, get the
/// same chain digest on the same previous digest: the digest is a function of
/// the row's cell texts and of the previous digest alone.
pub proof fn lemma_digest_determined_by_cell_texts(
    a: Seq<CellValue>,
    b: Seq<CellValue>,
    prev: Option<Seq<char>>,
)
    requires
        a.len() == b.len(),
        forall|j: int| 0 <= j < a.len() ==> cell_text(#[trigger] a[j]) == cell_text(b[j]),
    ensures
        chain_digest(a, prev) == chain_digest(b, prev),
{
    assert(cell_digests(a) =~= cell_digests(b));
}

/// For the first row, with no previous digest, the chain digest is the hash of the
/// cell digests concatenated and nothing else.
pub proof fn lemma_first_row_base(values: Seq<CellValue>)
    ensures
        chain_digest(values, None) == sha256_hex(concat_all(cell_digests(values))),
{
}

proof fn lemma_concat_len(parts: Seq<Seq<char>>)
    requires
        forall|j: int| 0 <= j < parts.len() ==> is_digest(#[trigger] parts[j]),
    ensures
        concat_all(parts).len() == 64 * parts.len(),
    decreases parts.len(),
{
    if parts.len() > 0 {
        lemma_concat_len(parts.drop_last());
    }
}

proof fn lemma_concat_injective(a: Seq<Seq<char>>, b: Seq<Seq<char>>)
    requires
        a.len() == b.len(),
        forall|j: int| 0 <= j < a.len() ==> is_digest(#[trigger] a[j]),
        forall|j: int| 0 <= j < b.len() ==> is_digest(#[trigger] b[j]),
        concat_all(a) == concat_all(b),
    ensures
        a == b,
    decreases a.len(),
{
    if a.len() > 0 {
        let n = a.len() - 1;
        lemma_concat_len(a.drop_last());
        lemma_concat_len(b.drop_last());
        let whole = concat_all(a);
        assert(concat_all(a.drop_last()) =~= whole.subrange(0, 64 * n));
        assert(concat_all(b.drop_last()) =~= whole.subrange(0, 64 * n));
        assert(a.last() =~= whole.subrange(64 * n, whole.len() as int));
        assert(b.last() =~= whole.subrange(64 * n, whole.len() as int));
        lemma_concat_injective(a.drop_last(), b.drop_last());
        assert(a =~= a.drop_last().push(a.last()));
        assert(b =~= b.drop_last().push(b.last()));
    } else {
        assert(a =~= b);
    }
}

/// Changing the digest of any cell of a row changes the text that is hashed
/// for that row, on the same previous digest. (That the digest itself then
/// changes rests on SHA-256 having no collisions, which nothing here states.)
pub proof fn lemma_cell_change_changes_preimage(
    a: Seq<Seq<char>>,
    b: Seq<Seq<char>>,
    prev: Option<Seq<char>>,
)
    requires
        a.len() == b.len(),
        forall|j: int| 0 <= j < a.len() ==> is_digest(#[trigger] a[j]),
        forall|j: int| 0 <= j < b.len() ==> is_digest(#[trigger] b[j]),
        a != b,
    ensures
        chain_preimage(a, prev) != chain_preimage(b, prev),
{
    lemma_concat_len(a);
    lemma_concat_len(b);
    if chain_preimage(a, prev) == chain_preimage(b, prev) {
        let k = 64 * a.len() as int;
        assert(concat_all(a) =~= chain_preimage(a, prev).subrange(0, k));
        assert(concat_all(b) =~= chain_preimage(b, prev).subrange(0, k));
        lemma_concat_injective(a, b);
    }
}

/// A change of the previous digest changes the text hashed for the next row:
/// this carries any change in one row on to every row after it.
pub proof fn lemma_prev_change_changes_preimage(
    digests: Seq<Seq<char>>,
    prev_a: Seq<char>,
    prev_b: Seq<char>,
)
    requires
        prev_a != prev_b,
    ensures
        chain_preimage(digests, Some(prev_a)) != chain_preimage(digests, Some(prev_b)),
{
    let k = concat_all(digests).len() as int;
    let pa = chain_preimage(digests, Some(prev_a));
    let pb = chain_preimage(digests, Some(prev_b));
    if pa == pb {
        assert(prev_a =~= pa.subrange(k, pa.len() as int));
        assert(prev_b =~= pb.subrange(k, pb.len() as int));
    }
}

} // verus!
