//! The `multipart/form-data` body of a file upload: an optional file part
//! followed by one part per present form field.

use vstd::prelude::*;
use vstd::utf8::encode_utf8;

use crate::decimal::{append_i64, int_to_decimal, nat_to_decimal, u64_to_string};

verus! {

/// `bytes::Bytes`, carried as it is.
#[verifier::external_type_specification]
#[verifier::external_body]
pub struct ExBytes(bytes::Bytes);

/// `bytes::BytesMut`, carried as it is.
#[verifier::external_type_specification]
#[verifier::external_body]
pub struct ExBytesMut(bytes::BytesMut);

/// The bytes that a `bytes::Bytes` holds.
pub uninterp spec fn bytes_contents(b: bytes::Bytes) -> Seq<u8>;

/// The bytes that a `bytes::BytesMut` holds.
pub uninterp spec fn bytes_mut_contents(b: bytes::BytesMut) -> Seq<u8>;

/// The most bytes a `BytesMut` takes: `remaining_mut` is `isize::MAX` less
/// its length.
pub open spec fn bytes_mut_limit() -> int {
    isize::MAX as int
}

/// `BytesMut::with_capacity`: an empty buffer (its `Vec` panics on a
/// capacity beyond `isize::MAX` bytes).
#[verifier::external_body]
fn bytes_mut_with_capacity(capacity: usize) -> (r: bytes::BytesMut)
    requires
        capacity <= bytes_mut_limit(),
    ensures
        bytes_mut_contents(r) == Seq::<u8>::empty(),
{
    bytes::BytesMut::with_capacity(capacity)
}

/// `fmt::Write::write_str` of a `BytesMut`: it appends the UTF-8 bytes of
/// the text when `remaining_mut` (`isize::MAX` less the length) allows them,
/// and otherwise fails and leaves the buffer as it was. The result says
/// whether it wrote.
#[verifier::external_body]
fn bytes_mut_write_str(out: &mut bytes::BytesMut, s: &str) -> (written: bool)
    ensures
        written == (bytes_mut_contents(*old(out)).len() + encode_utf8(s@).len() <= bytes_mut_limit()),
        written ==> bytes_mut_contents(*final(out)) == bytes_mut_contents(*old(out)) + encode_utf8(s@),
        !written ==> bytes_mut_contents(*final(out)) == bytes_mut_contents(*old(out)),
{
    std::fmt::Write::write_str(out, s).is_ok()
}

/// `BufMut::put_slice` of a `BytesMut`: it appends the bytes (it panics
/// when they would take the buffer past `isize::MAX` bytes).
#[verifier::external_body]
fn bytes_mut_put_slice(out: &mut bytes::BytesMut, data: &[u8])
    requires
        bytes_mut_contents(*old(out)).len() + data@.len() <= bytes_mut_limit(),
    ensures
        bytes_mut_contents(*final(out)) == bytes_mut_contents(*old(out)) + data@,
{
    bytes::BufMut::put_slice(out, data)
}

/// `BytesMut::freeze`: a `Bytes` that holds the same bytes.
#[verifier::external_body]
fn bytes_mut_freeze(b: bytes::BytesMut) -> (r: bytes::Bytes)
    ensures
        bytes_contents(r) == bytes_mut_contents(b),
{
    b.freeze()
}

/// A file to upload.
pub struct FileMultipartData<'a> {
    pub name: String,
    pub content_type: String,
    pub data: &'a [u8],
}

/// The UTF-8 bytes of a text.
pub open spec fn text(s: Seq<char>) -> Seq<u8> {
    encode_utf8(s)
}

/// The line break of the format.
pub open spec fn crlf() -> Seq<u8> {
    text("\r\n"@)
}

/// A boundary line (after the line break that ends the previous part).
pub open spec fn boundary_line(boundary: Seq<char>) -> Seq<u8> {
    crlf() + text("--"@) + text(boundary) + crlf()
}

/// The part that carries the file, up to its bytes.
pub open spec fn file_part_head(boundary: Seq<char>, name: Seq<char>, content_type: Seq<char>, length: nat) -> Seq<u8> {
    crlf() + text("--"@) + text(boundary) + crlf()
        + text("Content-Disposition: form-data; name=\"file\"; filename=\""@) + text(name) + text("\""@) + crlf()
        + text("Content-Type: "@) + text(content_type) + crlf()
        + text("Content-Length: "@) + text(nat_to_decimal(length)) + crlf()
        + crlf()
}

/// The part that carries the file.
pub open spec fn file_part(boundary: Seq<char>, name: Seq<char>, content_type: Seq<char>, data: Seq<u8>) -> Seq<u8> {
    file_part_head(boundary, name, content_type, data.len()) + data
}

/// The part that carries the form field `key` with the value `value`.
pub open spec fn field_part(boundary: Seq<char>, key: Seq<char>, value: Seq<char>) -> Seq<u8> {
    crlf() + text("--"@) + text(boundary) + crlf()
        + text("Content-Disposition: form-data; name=\""@) + text(key) + text("\""@) + crlf()
        + text("Content-Length: "@) + text(nat_to_decimal(text(value).len())) + crlf()
        + crlf() + text(value)
}

/// The parts of the fields that have a value, in order.
pub open spec fn field_parts(boundary: Seq<char>, fields: Seq<(Seq<char>, Option<Seq<char>>)>) -> Seq<u8>
    decreases fields.len(),
{
    if fields.len() == 0 {
        seq![]
    } else {
        let last = fields.last();
        let rest = field_parts(boundary, fields.drop_last());
        match last.1 {
            Some(value) => rest + field_part(boundary, last.0, value),
            None => rest,
        }
    }
}

/// The whole body: a line break, the file part when there is a file, the
/// field parts, and the closing boundary.
pub open spec fn multipart_body(
    boundary: Seq<char>,
    fields: Seq<(Seq<char>, Option<Seq<char>>)>,
    file: Option<(Seq<char>, Seq<char>, Seq<u8>)>,
) -> Seq<u8> {
    let file_bytes = match file {
        Some((name, content_type, data)) => file_part(boundary, name, content_type, data),
        None => seq![],
    };
    crlf() + file_bytes + field_parts(boundary, fields) + crlf() + text("--"@) + text(boundary)
}

/// The fields as texts.
pub open spec fn fields_view(fields: Seq<(&str, Option<&str>)>) -> Seq<(Seq<char>, Option<Seq<char>>)> {
    fields.map_values(|f: (&str, Option<&str>)| (f.0@, match f.1 { Some(v) => Some(v@), None => None }))
}

/// The file as texts and bytes.
pub open spec fn file_view(file: Option<FileMultipartData>) -> Option<(Seq<char>, Seq<char>, Seq<u8>)> {
    match file {
        Some(f) => Some((f.name@, f.content_type@, f.data@)),
        None => None,
    }
}

/// The UTF-8 bytes of texts, one after the other.
pub open spec fn texts_bytes(pieces: Seq<Seq<char>>) -> Seq<u8>
    decreases pieces.len(),
{
    if pieces.len() == 0 {
        seq![]
    } else {
        texts_bytes(pieces.drop_last()) + text(pieces.last())
    }
}

/// Texts as sequences of characters.
pub open spec fn strs_view(pieces: Seq<&str>) -> Seq<Seq<char>> {
    pieces.map_values(|p: &str| p@)
}

/// The bytes of the first texts are no longer than those of all of them.
proof fn lemma_texts_bytes_prefix(pieces: Seq<Seq<char>>, k: int)
    requires
        0 <= k <= pieces.len(),
    ensures
        texts_bytes(pieces.take(k)).len() <= texts_bytes(pieces).len(),
    decreases pieces.len() - k,
{
    if k < pieces.len() {
        lemma_texts_bytes_prefix(pieces, k + 1);
        assert(pieces.take(k + 1).drop_last() =~= pieces.take(k));
    } else {
        assert(pieces.take(k) =~= pieces);
    }
}

/// The parts of the first fields are no longer than those of all of them.
proof fn lemma_field_parts_prefix(boundary: Seq<char>, fields: Seq<(Seq<char>, Option<Seq<char>>)>, k: int)
    requires
        0 <= k <= fields.len(),
    ensures
        field_parts(boundary, fields.take(k)).len() <= field_parts(boundary, fields).len(),
    decreases fields.len() - k,
{
    if k < fields.len() {
        lemma_field_parts_prefix(boundary, fields, k + 1);
        assert(fields.take(k + 1).drop_last() =~= fields.take(k));
    } else {
        assert(fields.take(k) =~= fields);
    }
}

/// The parts of the fields of two lists are those of the first list, then
/// those of the second: each field's part depends on that field alone.
pub proof fn lemma_field_parts_concat(
    boundary: Seq<char>,
    first: Seq<(Seq<char>, Option<Seq<char>>)>,
    second: Seq<(Seq<char>, Option<Seq<char>>)>,
)
    ensures
        field_parts(boundary, first + second) == field_parts(boundary, first) + field_parts(boundary, second),
    decreases second.len(),
{
    if second.len() == 0 {
        assert(first + second =~= first);
        assert(field_parts(boundary, first) + field_parts(boundary, second) =~= field_parts(boundary, first));
    } else {
        lemma_field_parts_concat(boundary, first, second.drop_last());
        assert((first + second).drop_last() =~= first + second.drop_last());
        assert((first + second).last() == second.last());
        match second.last().1 {
            Some(value) => {
                assert(field_parts(boundary, first + second) =~= field_parts(boundary, first) + field_parts(boundary, second));
            },
            None => {},
        }
    }
}

/// A field with a value is written as its own part, and a field with none is
/// not written.
pub proof fn lemma_field_parts_single(boundary: Seq<char>, key: Seq<char>, value: Option<Seq<char>>)
    ensures
        field_parts(boundary, seq![(key, value)]) == match value {
            Some(v) => field_part(boundary, key, v),
            None => Seq::<u8>::empty(),
        },
{
    let one = seq![(key, value)];
    assert(one.drop_last() =~= Seq::<(Seq<char>, Option<Seq<char>>)>::empty());
    assert(field_parts(boundary, one.drop_last()) =~= Seq::<u8>::empty());
    match value {
        Some(v) => {
            assert(Seq::<u8>::empty() + field_part(boundary, key, v) =~= field_part(boundary, key, v));
        },
        None => {},
    }
}

/// Two fields with values are both written, each as its own part, in their
/// order: the second is written whatever the first held.
pub proof fn lemma_two_fields_are_both_written(
    boundary: Seq<char>,
    first_key: Seq<char>,
    first_value: Seq<char>,
    second_key: Seq<char>,
    second_value: Seq<char>,
)
    ensures
        field_parts(boundary, seq![(first_key, Some(first_value)), (second_key, Some(second_value))])
            == field_part(boundary, first_key, first_value) + field_part(boundary, second_key, second_value),
        multipart_body(boundary, seq![(first_key, Some(first_value)), (second_key, Some(second_value))], None)
            == crlf() + field_part(boundary, first_key, first_value) + field_part(boundary, second_key, second_value)
                + crlf() + text("--"@) + text(boundary),
{
    let one = seq![(first_key, Some(first_value))];
    let two = seq![(second_key, Some(second_value))];
    lemma_field_parts_concat(boundary, one, two);
    lemma_field_parts_single(boundary, first_key, Some(first_value));
    lemma_field_parts_single(boundary, second_key, Some(second_value));
    assert(one + two =~= seq![(first_key, Some(first_value)), (second_key, Some(second_value))]);
    assert(multipart_body(boundary, seq![(first_key, Some(first_value)), (second_key, Some(second_value))], None)
        =~= crlf() + field_part(boundary, first_key, first_value) + field_part(boundary, second_key, second_value)
            + crlf() + text("--"@) + text(boundary));
}

/// Adding a field with a value to a form adds exactly its part, just before
/// the closing boundary; adding one with none leaves the body as it was.
pub proof fn lemma_body_grows_by_the_added_field(
    boundary: Seq<char>,
    fields: Seq<(Seq<char>, Option<Seq<char>>)>,
    file: Option<(Seq<char>, Seq<char>, Seq<u8>)>,
    key: Seq<char>,
    value: Option<Seq<char>>,
)
    ensures
        ({
            let before = multipart_body(boundary, fields, file);
            let after = multipart_body(boundary, fields.push((key, value)), file);
            let closing = crlf() + text("--"@) + text(boundary);
            match value {
                Some(v) => after == before.take(before.len() - closing.len()) + field_part(boundary, key, v) + closing,
                None => after == before,
            }
        }),
{
    lemma_field_parts_concat(boundary, fields, seq![(key, value)]);
    lemma_field_parts_single(boundary, key, value);
    assert(fields + seq![(key, value)] =~= fields.push((key, value)));
    let file_bytes = match file {
        Some((name, content_type, data)) => file_part(boundary, name, content_type, data),
        None => seq![],
    };
    let closing = crlf() + text("--"@) + text(boundary);
    let before = multipart_body(boundary, fields, file);
    assert(before =~= (crlf() + file_bytes + field_parts(boundary, fields)) + closing);
    assert(before.take(before.len() - closing.len()) =~= crlf() + file_bytes + field_parts(boundary, fields));
    match value {
        Some(v) => {
            assert(multipart_body(boundary, fields.push((key, value)), file)
                =~= before.take(before.len() - closing.len()) + field_part(boundary, key, v) + closing);
        },
        None => {
            assert(field_parts(boundary, fields.push((key, value))) =~= field_parts(boundary, fields));
            assert(multipart_body(boundary, fields.push((key, value)), file) =~= before);
        },
    }
}

/// Writes texts one after the other, as long as they fit; true when all of
/// them did, which is when their bytes all fit.
fn write_texts(out: &mut bytes::BytesMut, pieces: &Vec<&str>) -> (written: bool)
    requires
        bytes_mut_contents(*old(out)).len() <= bytes_mut_limit(),
    ensures
        written == (bytes_mut_contents(*old(out)).len() + texts_bytes(strs_view(pieces@)).len() <= bytes_mut_limit()),
        written ==> bytes_mut_contents(*final(out)) == bytes_mut_contents(*old(out)) + texts_bytes(strs_view(pieces@)),
{
    let ghost start = bytes_mut_contents(*out);
    let ghost all = strs_view(pieces@);
    let n = pieces.len();
    let mut i: usize = 0;
    while i < n
        invariant
            n == pieces@.len(),
            i <= n,
            all == strs_view(pieces@),
            start == bytes_mut_contents(*old(out)),
            bytes_mut_contents(*out) == start + texts_bytes(all.take(i as int)),
            start.len() + texts_bytes(all.take(i as int)).len() <= bytes_mut_limit(),
        decreases n - i,
    {
        let piece = pieces[i];
        proof {
            assert(all.take(i + 1).drop_last() =~= all.take(i as int));
            assert(all.take(i + 1).last() == piece@);
        }
        if !bytes_mut_write_str(out, piece) {
            proof {
                lemma_texts_bytes_prefix(all, i + 1);
            }
            return false;
        }
        proof {
            assert(bytes_mut_contents(*out) =~= start + texts_bytes(all.take(i + 1)));
        }
        i = i + 1;
    }
    proof {
        assert(all.take(n as int) =~= all);
    }
    true
}

/// Writes the part of one form field; true when it fit.
fn write_field_part(out: &mut bytes::BytesMut, boundary: &str, key: &str, value: &str) -> (written: bool)
    requires
        bytes_mut_contents(*old(out)).len() <= bytes_mut_limit(),
    ensures
        written == (bytes_mut_contents(*old(out)).len() + field_part(boundary@, key@, value@).len() <= bytes_mut_limit()),
        written ==> bytes_mut_contents(*final(out)) == bytes_mut_contents(*old(out)) + field_part(boundary@, key@, value@),
{
    let length = u64_to_string(value.as_bytes().len() as u64);
    let pieces = vec![
        "\r\n",
        "--",
        boundary,
        "\r\n",
        "Content-Disposition: form-data; name=\"",
        key,
        "\"",
        "\r\n",
        "Content-Length: ",
        length.as_str(),
        "\r\n",
        "\r\n",
        value,
    ];
    proof {
        reveal_with_fuel(texts_bytes, 14);
        assert(texts_bytes(strs_view(pieces@)) =~= field_part(boundary@, key@, value@));
    }
    write_texts(out, &pieces)
}

/// Writes the part of the file, up to its bytes; true when it fit.
fn write_file_part_head(out: &mut bytes::BytesMut, boundary: &str, file: &FileMultipartData) -> (written: bool)
    requires
        bytes_mut_contents(*old(out)).len() <= bytes_mut_limit(),
    ensures
        written == (bytes_mut_contents(*old(out)).len()
            + file_part_head(boundary@, file.name@, file.content_type@, file.data@.len()).len() <= bytes_mut_limit()),
        written ==> bytes_mut_contents(*final(out))
            == bytes_mut_contents(*old(out)) + file_part_head(boundary@, file.name@, file.content_type@, file.data@.len()),
{
    let length = u64_to_string(file.data.len() as u64);
    let pieces = vec![
        "\r\n",
        "--",
        boundary,
        "\r\n",
        "Content-Disposition: form-data; name=\"file\"; filename=\"",
        file.name.as_str(),
        "\"",
        "\r\n",
        "Content-Type: ",
        file.content_type.as_str(),
        "\r\n",
        "Content-Length: ",
        length.as_str(),
        "\r\n",
        "\r\n",
    ];
    proof {
        reveal_with_fuel(texts_bytes, 16);
        assert(texts_bytes(strs_view(pieces@))
            =~= file_part_head(boundary@, file.name@, file.content_type@, file.data@.len()));
    }
    write_texts(out, &pieces)
}

/// The inputs on which writing the body does not panic: when the file part
/// up to its bytes fits in a buffer, its bytes fit too (else the buffer
/// panics instead of failing), and the capacity that the buffer is made
/// with, the file's length and 1024, is at most `isize::MAX`.
pub open spec fn multipart_in_range(boundary: Seq<char>, file: Option<(Seq<char>, Seq<char>, Seq<u8>)>) -> bool {
    match file {
        None => true,
        Some((name, content_type, data)) => {
            let before = crlf().len() + file_part_head(boundary, name, content_type, data.len()).len();
            &&& data.len() + 1024 <= bytes_mut_limit()
            &&& (before <= bytes_mut_limit() ==> before + data.len() <= bytes_mut_limit())
        },
    }
}

/// The body of a `multipart/form-data` upload with the given boundary: the
/// optional file first, then the fields that have a value, in order. It is
/// built in a `BytesMut`, and fails exactly when the body does not fit one
/// (more than `isize::MAX` bytes).
pub fn create_multipart_file_content(
    fields: &[(&str, Option<&str>)],
    multipart_boundary: &str,
    file: Option<FileMultipartData>,
) -> (r: Result<bytes::Bytes, ()>)
    requires
        multipart_in_range(multipart_boundary@, file_view(file)),
    ensures
        r is Ok <==> multipart_body(multipart_boundary@, fields_view(fields@), file_view(file)).len() <= bytes_mut_limit(),
        r matches Ok(b) ==> bytes_contents(b) == multipart_body(multipart_boundary@, fields_view(fields@), file_view(file)),
{
    let ghost body = multipart_body(multipart_boundary@, fields_view(fields@), file_view(file));
    let ghost all_fields = fields_view(fields@);
    let ghost file_bytes = match file_view(file) {
        Some((name, content_type, data)) => file_part(multipart_boundary@, name, content_type, data),
        None => seq![],
    };
    proof {
        reveal_strlit("\r\n");
        reveal_strlit("--");
        lemma_field_parts_prefix(multipart_boundary@, all_fields, 0);
        assert(all_fields.take(0) =~= Seq::<(Seq<char>, Option<Seq<char>>)>::empty());
    }
    let capacity: usize = match &file {
        Some(f) => f.data.len() + 1024,
        None => 1024,
    };
    let mut output = bytes_mut_with_capacity(capacity);
    if !bytes_mut_write_str(&mut output, "\r\n") {
        return Err(());
    }
    match &file {
        Some(file_to_upload) => {
            let ghost before = bytes_mut_contents(output);
            if !write_file_part_head(&mut output, multipart_boundary, file_to_upload) {
                return Err(());
            }
            bytes_mut_put_slice(&mut output, file_to_upload.data);
            proof {
                assert(bytes_mut_contents(output) =~= before + file_bytes);
            }
        },
        None => {},
    }
    let ghost after_file = bytes_mut_contents(output);
    proof {
        assert(after_file =~= crlf() + file_bytes);
    }
    let n = fields.len();
    let mut i: usize = 0;
    while i < n
        invariant
            n == fields@.len(),
            i <= n,
            all_fields == fields_view(fields@),
            body == multipart_body(multipart_boundary@, fields_view(fields@), file_view(file)),
            body == after_file + field_parts(multipart_boundary@, all_fields) + crlf() + text("--"@) + text(multipart_boundary@),
            bytes_mut_contents(output) == after_file + field_parts(multipart_boundary@, all_fields.take(i as int)),
            bytes_mut_contents(output).len() <= bytes_mut_limit(),
        decreases n - i,
    {
        let (key, value) = fields[i];
        proof {
            assert(all_fields.take(i + 1).drop_last() =~= all_fields.take(i as int));
            assert(all_fields.take(i + 1).last() == all_fields[i as int]);
            lemma_field_parts_prefix(multipart_boundary@, all_fields, i + 1);
        }
        match value {
            Some(v) => {
                proof {
                    assert(all_fields[i as int] == (key@, Some(v@)));
                }
                if !write_field_part(&mut output, multipart_boundary, key, v) {
                    return Err(());
                }
                proof {
                    assert(bytes_mut_contents(output)
                        =~= after_file + field_parts(multipart_boundary@, all_fields.take(i + 1)));
                }
            },
            None => {
                proof {
                    assert(all_fields[i as int] == (key@, None::<Seq<char>>));
                    assert(bytes_mut_contents(output)
                        =~= after_file + field_parts(multipart_boundary@, all_fields.take(i + 1)));
                }
            },
        }
        i = i + 1;
    }
    proof {
        assert(all_fields.take(n as int) =~= all_fields);
    }
    let closing = vec!["\r\n", "--", multipart_boundary];
    proof {
        reveal_with_fuel(texts_bytes, 4);
        assert(texts_bytes(strs_view(closing@)) =~= crlf() + text("--"@) + text(multipart_boundary@));
        assert(body =~= bytes_mut_contents(output) + texts_bytes(strs_view(closing@)));
    }
    if !write_texts(&mut output, &closing) {
        return Err(());
    }
    Ok(bytes_mut_freeze(output))
}

/// `chrono::Utc::now().timestamp()`: the current Unix time in seconds.
/// Nothing is stated of the value: it is the time.
#[verifier::external_body]
fn chrono_utc_now_timestamp() -> i64 {
    chrono::Utc::now().timestamp()
}

/// The boundary for the given Unix time in seconds.
pub fn multipart_boundary_at(timestamp: i64) -> (r: String)
    ensures
        r@ == "----WebKitFormBoundarySlackMorphismRust"@ + int_to_decimal(timestamp as int),
{
    let mut boundary = String::from_str("----WebKitFormBoundarySlackMorphismRust");
    append_i64(&mut boundary, timestamp);
    boundary
}

/// A boundary made of a fixed prefix and the current Unix time in seconds.
pub fn generate_multipart_boundary() -> (r: String)
    ensures
        exists|t: i64| r@ == "----WebKitFormBoundarySlackMorphismRust"@ + int_to_decimal(t as int),
{
    let timestamp = chrono_utc_now_timestamp();
    multipart_boundary_at(timestamp)
}

} // verus!
