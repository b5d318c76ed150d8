//! Rendering of the protocol's replies as JSON text.
//!
//! Every value this library emits holds only letters, digits and spaces,
//! so the rendering never needs JSON escaping and can be specified as a
//! plain concatenation of character sequences.

use vstd::prelude::*;
use crate::labels::{cell_label, col_letters, dec_chars};
use crate::window::{
    SliceRequest, SliceResponse, col_count_of, lemma_safety_caps, make_slice_response,
    row_count_of, start_col_of, start_row_of,
};

verus! {

/// A string value rendered verbatim between double quotes.
pub open spec fn quoted(s: Seq<char>) -> Seq<char> {
    "\""@ + s + "\""@
}

/// Already-rendered array elements joined with commas.
pub open spec fn joined(elems: Seq<Seq<char>>) -> Seq<char>
    decreases elems.len(),
{
    if elems.len() == 0 {
        Seq::empty()
    } else if elems.len() == 1 {
        elems[0]
    } else {
        joined(elems.drop_last()) + ","@ + elems.last()
    }
}

/// A JSON array of already-rendered elements.
pub open spec fn array(elems: Seq<Seq<char>>) -> Seq<char> {
    "["@ + joined(elems) + "]"@
}

/// A JSON array of string values.
pub open spec fn vec_string_array(items: Seq<String>) -> Seq<char> {
    array(Seq::new(items.len(), |i: int| quoted(items[i]@)))
}

/// Appending one more element extends the joined rendering by a comma
/// (unless it is the first) and the element.
proof fn lemma_joined_push(elems: Seq<Seq<char>>, x: Seq<char>)
    ensures
        joined(elems.push(x)) == if elems.len() == 0 {
            x
        } else {
            joined(elems) + ","@ + x
        },
{
    let p = elems.push(x);
    if elems.len() == 0 {
        assert(p.len() == 1);
        assert(p[0] == x);
    } else {
        assert(p.drop_last() =~= elems);
        assert(p.last() == x);
    }
}

/// Appends the JSON array of the given string values to `out`.
fn push_string_array(out: &mut String, items: &Vec<String>)
    ensures
        final(out)@ == old(out)@ + vec_string_array(items@),
{
    let ghost q: Seq<Seq<char>> = Seq::new(items@.len(), |i: int| quoted(items@[i]@));
    out.append("[");
    let mut i: usize = 0;
    while i < items.len()
        invariant
            i <= items@.len(),
            q == Seq::new(items@.len(), |k: int| quoted(items@[k]@)),
            out@ == old(out)@ + "["@ + joined(q.take(i as int)),
        decreases items@.len() - i,
    {
        if i > 0 {
            out.append(",");
        }
        out.append("\"");
        out.append(items[i].as_str());
        out.append("\"");
        proof {
            lemma_joined_push(q.take(i as int), q[i as int]);
            assert(q.take(i as int + 1) =~= q.take(i as int).push(q[i as int]));
            assert(out@ =~= old(out)@ + "["@ + joined(q.take(i as int + 1)));
        }
        i += 1;
    }
    out.append("]");
    proof {
        assert(q.take(items@.len() as int) =~= q);
        assert(out@ =~= old(out)@ + vec_string_array(items@));
    }
}

/// Appends the JSON array of row arrays to `out`.
fn push_rows_array(out: &mut String, rows: &Vec<Vec<String>>)
    ensures
        final(out)@ == old(out)@ + array(
            Seq::new(rows@.len(), |r: int| vec_string_array(rows@[r]@)),
        ),
{
    let ghost q: Seq<Seq<char>> = Seq::new(rows@.len(), |r: int| vec_string_array(rows@[r]@));
    out.append("[");
    let mut i: usize = 0;
    while i < rows.len()
        invariant
            i <= rows@.len(),
            q == Seq::new(rows@.len(), |k: int| vec_string_array(rows@[k]@)),
            out@ == old(out)@ + "["@ + joined(q.take(i as int)),
        decreases rows@.len() - i,
    {
        if i > 0 {
            out.append(",");
        }
        push_string_array(out, &rows[i]);
        proof {
            lemma_joined_push(q.take(i as int), q[i as int]);
            assert(q.take(i as int + 1) =~= q.take(i as int).push(q[i as int]));
            assert(out@ =~= old(out)@ + "["@ + joined(q.take(i as int + 1)));
        }
        i += 1;
    }
    out.append("]");
    proof {
        assert(q.take(rows@.len() as int) =~= q);
        assert(out@ =~= old(out)@ + array(q));
    }
}

/// The JSON rendering of a slice response.
pub open spec fn slice_json(resp: SliceResponse) -> Seq<char> {
    "{\"type\":\"slice_response\",\"startRow\":"@ + dec_chars(resp.start_row as nat)
        + ",\"rowCount\":"@ + dec_chars(resp.row_count as nat) + ",\"startCol\":"@ + dec_chars(
        resp.start_col as nat,
    ) + ",\"colCount\":"@ + dec_chars(resp.col_count as nat) + ",\"colLetters\":"@
        + vec_string_array(resp.col_letters@) + ",\"cellsByRow\":"@ + array(
        Seq::new(resp.cells_by_row@.len(), |r: int| vec_string_array(resp.cells_by_row@[r]@)),
    ) + "}"@
}

/// Renders a slice response as the protocol's JSON text.
pub fn slice_response_to_json(resp: &SliceResponse) -> (r: String)
    ensures
        r@ == slice_json(*resp),
{
    let mut out = String::from_str("{\"type\":\"slice_response\",\"startRow\":");
    let mut num = crate::labels::u64_to_dec_string(resp.start_row);
    out.append(num.as_str());
    out.append(",\"rowCount\":");
    num = crate::labels::u64_to_dec_string(resp.row_count as u64);
    out.append(num.as_str());
    out.append(",\"startCol\":");
    num = crate::labels::u64_to_dec_string(resp.start_col);
    out.append(num.as_str());
    out.append(",\"colCount\":");
    num = crate::labels::u64_to_dec_string(resp.col_count as u64);
    out.append(num.as_str());
    out.append(",\"colLetters\":");
    push_string_array(&mut out, &resp.col_letters);
    out.append(",\"cellsByRow\":");
    push_rows_array(&mut out, &resp.cells_by_row);
    out.append("}");
    proof {
        assert(out@ =~= slice_json(*resp));
    }
    out
}

/// The rendered column-letter elements of the slice a viewport asks for.
pub open spec fn letter_elems(req: SliceRequest) -> Seq<Seq<char>> {
    Seq::new(
        col_count_of(req) as nat,
        |c: int| quoted(col_letters((start_col_of(req) + c) as nat)),
    )
}

/// The rendered cell labels of one row of that slice.
pub open spec fn row_elems(req: SliceRequest, r: int) -> Seq<Seq<char>> {
    Seq::new(
        col_count_of(req) as nat,
        |c: int|
            quoted(
                cell_label((start_row_of(req) + r + 1) as nat, (start_col_of(req) + c) as nat),
            ),
    )
}

/// The rendered rows of that slice.
pub open spec fn rows_elems(req: SliceRequest) -> Seq<Seq<char>> {
    Seq::new(row_count_of(req) as nat, |r: int| array(row_elems(req, r)))
}

/// The one reply text a valid slice request is owed: the slice window
/// the engine computes for it, rendered as JSON. Everything here is a
/// function of the request alone.
pub open spec fn slice_reply_chars(req: SliceRequest) -> Seq<char>
    recommends
        req.valid(),
{
    "{\"type\":\"slice_response\",\"startRow\":"@ + dec_chars(start_row_of(req) as nat)
        + ",\"rowCount\":"@ + dec_chars(row_count_of(req) as nat) + ",\"startCol\":"@ + dec_chars(
        start_col_of(req) as nat,
    ) + ",\"colCount\":"@ + dec_chars(col_count_of(req) as nat) + ",\"colLetters\":"@ + array(
        letter_elems(req),
    ) + ",\"cellsByRow\":"@ + array(rows_elems(req)) + "}"@
}

/// Computes the slice for a valid viewport and renders it: the reply is
/// exactly the JSON the engine's window and labels prescribe.
pub fn slice_reply(req: &SliceRequest) -> (r: String)
    requires
        req.valid(),
    ensures
        r@ == slice_reply_chars(*req),
{
    let resp = make_slice_response(req);
    let out = slice_response_to_json(&resp);
    proof {
        lemma_safety_caps(*req);
        assert(Seq::new(resp.col_letters@.len(), |i: int| quoted(resp.col_letters@[i]@))
            =~= letter_elems(*req));
        assert forall|r: int| 0 <= r < resp.cells_by_row@.len() implies vec_string_array(
            resp.cells_by_row@[r]@,
        ) == array(row_elems(*req, r)) by {
            assert(Seq::new(
                resp.cells_by_row@[r]@.len(),
                |c: int| quoted(resp.cells_by_row@[r]@[c]@),
            ) =~= row_elems(*req, r));
        }
        assert(Seq::new(resp.cells_by_row@.len(), |r: int| vec_string_array(resp.cells_by_row@[r]@))
            =~= rows_elems(*req));
        assert(out@ =~= slice_reply_chars(*req));
    }
    out
}

/// The metadata reply: the grid bounds, the same for every request.
pub open spec fn metadata_json() -> Seq<char> {
    "{\"type\":\"metadata_response\",\"maxRows\":10000000,\"maxCols\":1000}"@
}

/// Renders the metadata reply. It takes no input at all, so the reply is
/// the same for every request on every connection.
pub fn metadata_response_json() -> (r: String)
    ensures
        r@ == metadata_json(),
{
    String::from_str("{\"type\":\"metadata_response\",\"maxRows\":10000000,\"maxCols\":1000}")
}

/// The error reply carrying the given message text.
pub open spec fn error_json(msg: Seq<char>) -> Seq<char> {
    "{\"type\":\"error\",\"message\":\""@ + msg + "\"}"@
}

/// Renders the error reply for a message that needs no escaping.
pub fn error_response_json(msg: &str) -> (r: String)
    ensures
        r@ == error_json(msg@),
{
    let mut out = String::from_str("{\"type\":\"error\",\"message\":\"");
    out.append(msg);
    out.append("\"}");
    proof {
        assert(out@ =~= error_json(msg@));
    }
    out
}

} // verus!
