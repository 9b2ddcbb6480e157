//! Judging a response that is at hand as a whole: status and body chunks.
use vstd::prelude::*;
use vstd::utf8::*;
use crate::error::UploadError;
use crate::identifier::decode_identifier;
use crate::progress::STATUS_OK;

verus! {

/// The chunks of a body laid end to end, in the order they arrived.
pub open spec fn joined(chunks: Seq<Seq<u8>>) -> Seq<u8>
    decreases chunks.len(),
{
    if chunks.len() == 0 {
        Seq::empty()
    } else {
        joined(chunks.drop_last()) + chunks.last()
    }
}

/// The contents of each chunk of a list.
pub open spec fn chunk_views(chunks: Seq<Vec<u8>>) -> Seq<Seq<u8>> {
    Seq::new(chunks.len(), |i: int| chunks[i]@)
}

/// Lays the chunks of a body end to end.
pub fn concat_chunks(chunks: &Vec<Vec<u8>>) -> (body: Vec<u8>)
    ensures
        body@ == joined(chunk_views(chunks@)),
{
    let mut body: Vec<u8> = Vec::new();
    let mut i: usize = 0;
    while i < chunks.len()
        invariant
            i <= chunks.len(),
            body@ == joined(chunk_views(chunks@).take(i as int)),
        decreases chunks.len() - i,
    {
        let chunk = &chunks[i];
        let ghost before = body@;
        let mut j: usize = 0;
        while j < chunk.len()
            invariant
                j <= chunk.len(),
                body@ == before + chunk@.take(j as int),
            decreases chunk.len() - j,
        {
            body.push(chunk[j]);
            j += 1;
            assert(body@ =~= before + chunk@.take(j as int));
        }
        proof {
            let views = chunk_views(chunks@);
            assert(chunk@.take(j as int) =~= chunk@);
            assert(views.take(i + 1).drop_last() =~= views.take(i as int));
            assert(views.take(i + 1).last() == chunk@);
        }
        i += 1;
    }
    assert(chunk_views(chunks@).take(i as int) =~= chunk_views(chunks@));
    body
}

/// The outcome that a complete response gives an upload.
///
/// Any status but 200 is a status error that keeps the status, and the body
/// plays no part. With status 200 the outcome is the identifier that the
/// whole body encodes, or a decode error if it encodes none.
pub open spec fn verdict(status: u16, body: Seq<u8>) -> Result<Seq<char>, UploadError> {
    if status != STATUS_OK {
        Err(UploadError::Status(status))
    } else if valid_utf8(body) {
        Ok(decode_utf8(body))
    } else {
        Err(UploadError::Decode)
    }
}

/// Judges the status of a response: 200 passes, anything else is a status
/// error carrying the status.
pub fn check_status(status: u16) -> (r: Result<(), UploadError>)
    ensures
        r == (if status == STATUS_OK {
            Ok::<(), UploadError>(())
        } else {
            Err::<(), UploadError>(UploadError::Status(status))
        }),
{
    if status == STATUS_OK {
        Ok(())
    } else {
        Err(UploadError::Status(status))
    }
}

/// Judges a complete response. The body is looked at only after the status
/// has passed.
pub fn resolve(status: u16, chunks: &Vec<Vec<u8>>) -> (r: Result<String, UploadError>)
    ensures
        match verdict(status, joined(chunk_views(chunks@))) {
            Ok(id) => r matches Ok(s) && s@ == id,
            Err(e) => r == Err::<String, UploadError>(e),
        },
{
    match check_status(status) {
        Err(e) => Err(e),
        Ok(_) => decode_identifier(concat_chunks(chunks)),
    }
}

} // verus!
