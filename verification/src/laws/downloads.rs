//! Downloads: how they begin, what is received and how it is passed on.

use crate::alike::Alike;
use crate::buffer;
use crate::crate_req::CrateReq;
use crate::digest;
use crate::krate;
use crate::krate::{
    ActiveDownloads, Begin, Crate, CrateError, DownloadBuffer, HeadOutcome, HeaderText, Piece,
    ResponseHead, SyncAnswer, Tee, TeeStep,
};
use crate::laws::written;
use crate::transfer;
use crate::transfer::{TransferAction, TransferEvent, TransferState};
use bytes::Bytes;
use vstd::prelude::*;

verus! {

/// A crate begins with what was asked for and what the source announced: where
/// the source answers 200 with a length and a readable type, it has the name
/// and the version of the request, that type and that length. In any other
/// case there is no crate, and the error says what is wrong.
pub proof fn law_crate_is_what_was_announced(
    krate_req: &CrateReq,
    response: ResponseHead,
    created: Result<Crate, CrateError>,
)
    requires
        call_ensures(Crate::create, (krate_req, response), created),
    ensures
        created is Ok <==> response.status == 200 && response.content_length is Some
            && response.content_type is Text,
        created is Ok ==> created->Ok_0.name@ == krate_req.name@,
        created is Ok ==> created->Ok_0.version@ == krate_req.version@,
        created is Ok ==> created->Ok_0.content_type@ == response.content_type->Text_0@,
        created is Ok && response.content_length->Some_0 <= usize::MAX
            ==> created->Ok_0.content_length == response.content_length->Some_0,
        response.status != 200 <==> created == Err::<Crate, CrateError>(CrateError::FetchFail),
        response.status == 200 && (response.content_length is None || response.content_type
            is Missing) <==> created == Err::<Crate, CrateError>(CrateError::MissingField),
        response.status == 200 && response.content_length is Some && response.content_type
            is Unreadable <==> created == Err::<Crate, CrateError>(CrateError::UnreadableHeader),
{
}

/// Different announced lengths make different crates.
pub proof fn law_announced_lengths_are_told_apart(
    krate_req: &CrateReq,
    response: ResponseHead,
    other: ResponseHead,
    krate: Crate,
    other_krate: Crate,
)
    requires
        call_ensures(
            Crate::create,
            (krate_req, response),
            Ok::<Crate, CrateError>(krate),
        ),
        call_ensures(Crate::create, (krate_req, other), Ok::<Crate, CrateError>(other_krate)),
        response.content_length->Some_0 <= usize::MAX,
        other.content_length->Some_0 <= usize::MAX,
        response.content_length != other.content_length,
    ensures
        krate.content_length != other_krate.content_length,
{
    law_crate_is_what_was_announced(krate_req, response, Ok(krate));
    law_crate_is_what_was_announced(krate_req, other, Ok(other_krate));
}

/// A tee begins before the first byte. It stops once it has passed on exactly
/// as many bytes as the source announced, or where nobody listens, and at no
/// other point.
pub proof fn law_tee_stops_at_the_announced_length(
    krate_req: &CrateReq,
    response: ResponseHead,
    krate: &Crate,
    begun: Tee,
    tee: &Tee,
    delivered: bool,
    step: TeeStep,
)
    requires
        call_ensures(
            Crate::create,
            (krate_req, response),
            Ok::<Crate, CrateError>(*krate),
        ),
        response.content_length->Some_0 <= usize::MAX,
        call_ensures(Crate::tee, (krate,), begun),
        tee@.content_length == begun@.content_length,
        call_ensures(Tee::after_send, (tee, delivered), step),
    ensures
        begun@.sent == 0,
        step == TeeStep::Stop <==> !delivered || tee@.sent == response.content_length->Some_0,
        step == TeeStep::Stop || step == TeeStep::AwaitMore,
{
    law_crate_is_what_was_announced(krate_req, response, Ok(*krate));
}

/// A copy of a crate is the same in every part, and how far a tee has come can
/// be read off it.
pub proof fn law_crate_is_copied(krate: &Crate, copy: Crate, tee: &Tee, sent: usize)
    requires
        call_ensures(Crate::clone, (krate,), copy),
        call_ensures(Tee::sent, (tee,), sent),
    ensures
        copy.name@ == krate.name@,
        copy.version@ == krate.version@,
        copy.content_type@ == krate.content_type@,
        copy.content_length == krate.content_length,
        sent == tee@.sent,
{
}

/// Once a tee has waited, it goes on where more was received, and where the
/// download ended it waits for the receiver to leave.
pub proof fn law_tee_goes_on_where_more_came(tee: &Tee, changed: bool, step: TeeStep)
    requires
        call_ensures(Tee::after_wait, (tee, changed), step),
    ensures
        step == TeeStep::SendMore <==> changed,
        step == TeeStep::AwaitClose <==> !changed,
{
}

/// A chunk is what follows, in what was received, on what was passed on before,
/// up to the end. The tee then counts it as passed on, and still knows how far
/// the crate goes.
pub proof fn law_chunk_follows_on_what_was_sent(
    tee: &mut Tee,
    received: &DownloadBuffer,
    chunk: Bytes,
)
    requires
        old(tee)@.sent <= received@.len(),
        call_ensures(Tee::next_chunk, (tee, received), chunk),
    ensures
        received@.take(old(tee)@.sent as int) + buffer::bytes_held(chunk) == received@,
        final(tee)@.sent == old(tee)@.sent + buffer::bytes_held(chunk).len(),
        final(tee)@.sent == received@.len(),
        final(tee)@.content_length == old(tee)@.content_length,
{
    assert(received@.take(old(tee)@.sent as int) + buffer::bytes_held(chunk) =~= received@);
}

/// A buffer begins empty. What it is given is added at its end and counted, and
/// all of it is given back.
pub proof fn law_buffer_gives_back_what_it_got(
    content_length: usize,
    empty: DownloadBuffer,
    received: &mut DownloadBuffer,
    data: &[u8],
    count: usize,
    kept: &DownloadBuffer,
    len: usize,
    content: Bytes,
)
    requires
        call_ensures(DownloadBuffer::new, (content_length,), empty),
        call_ensures(DownloadBuffer::receive, (received, data), count),
        call_ensures(DownloadBuffer::len, (kept,), len),
        call_ensures(DownloadBuffer::content, (kept,), content),
    ensures
        empty@.len() == 0,
        final(received)@.take(old(received)@.len() as int) == old(received)@,
        final(received)@.skip(old(received)@.len() as int) == data@,
        count == data@.len(),
        len == kept@.len(),
        buffer::bytes_held(content) == kept@,
{
    assert(final(received)@.take(old(received)@.len() as int) =~= old(received)@);
    assert(final(received)@.skip(old(received)@.len() as int) =~= data@);
}

/// While a transfer is receiving, a piece of the crate is added at the end of
/// the buffer and its length is signalled, and an error or the end leaves the
/// buffer as it is and leads on to asking the store. After that nothing is
/// added any more.
pub proof fn law_pieces_are_added_while_receiving(
    state: &mut TransferState,
    received: &mut DownloadBuffer,
    piece: Piece,
    taken: (TransferAction, Option<usize>),
)
    requires
        call_ensures(krate::take_in, (state, received, piece), taken),
    ensures
        *old(state) == TransferState::Receiving && piece is Data ==> {
            &&& final(received)@ == old(received)@ + buffer::bytes_held(piece->Data_0)
            &&& *final(state) == TransferState::Receiving
            &&& taken.0 == TransferAction::AwaitChunk
            &&& taken.1 is Some
            &&& taken.1->Some_0 == buffer::bytes_held(piece->Data_0).len()
        },
        *old(state) == TransferState::Receiving && !(piece is Data) ==> {
            &&& final(received)@ == old(received)@
            &&& *final(state) == TransferState::Checking
            &&& taken.0 == TransferAction::HeadObject
            &&& taken.1 is None
        },
        *old(state) != TransferState::Receiving ==> {
            &&& final(received)@ == old(received)@
            &&& *final(state) == *old(state)
            &&& taken.0 == TransferAction::Ignore
            &&& taken.1 is None
        },
{
    let before = krate::Progress {
        state: *old(state),
        received: old(received)@,
        signals: Seq::empty(),
    };
    let after = krate::with_piece(before, piece@);
    assert(Seq::<nat>::empty().len() == 0);
    if *old(state) == TransferState::Receiving && piece is Data {
        let len = buffer::bytes_held(piece->Data_0).len();
        assert(after.signals =~= seq![len]);
        assert(after.signals.len() == 1 && after.signals[0] == len);
    } else {
        assert(after.signals.len() == 0);
    }
}

/// A step does what the first of a run of events does: the laws on runs of
/// events hold of steps. An event that does not belong to the state changes
/// nothing: a piece where nothing is received, an answer of the store that was
/// not asked for, and anything once the transfer is done.
pub proof fn law_step_is_a_run_of_one(
    state: &mut TransferState,
    event: TransferEvent,
    action: TransferAction,
)
    requires
        call_ensures(TransferState::step, (state, event), action),
    ensures
        *final(state) == transfer::state_after(*old(state), seq![event]),
        seq![action] == transfer::actions(*old(state), seq![event]),
        ({
            ||| event is Chunk && *old(state) != TransferState::Receiving
            ||| event is Broken && *old(state) != TransferState::Receiving
            ||| event is Ended && *old(state) != TransferState::Receiving
            ||| event is Head && *old(state) != TransferState::Checking
            ||| event is Put && !(*old(state) is Uploading)
            ||| event is Indexed && *old(state) != TransferState::Indexing
        }) <==> action == TransferAction::Ignore,
        action == TransferAction::Ignore ==> *final(state) == *old(state),
        *old(state) == TransferState::Done ==> action == TransferAction::Ignore,
{
    reveal_with_fuel(transfer::state_after, 2);
    reveal_with_fuel(transfer::actions, 2);
    let events = seq![event];
    assert(events.drop_last() =~= Seq::<TransferEvent>::empty());
    assert(events.last() == event);
    assert(transfer::actions(*old(state), events) =~= seq![action]);
}

/// A crate that is asked for is answered with the handle on its download where
/// that is active, and otherwise to be fetched from the address that holds its
/// name and its version.
pub proof fn law_active_download_is_shared<T>(
    active: &ActiveDownloads<T>,
    krate_req: &CrateReq,
    begun: Begin<T>,
)
    requires
        call_ensures(krate::begin::<T>, (active, krate_req), begun),
    ensures
        begun is Active <==> active@.contains_key(krate_req.model()),
        begun is Active ==> *begun->Active_0 == active@[krate_req.model()],
        begun is Fetch ==> begun->Fetch_0@ == "https://crates.io/api/v1/crates/"@ + krate_req.name@
            + "/"@ + krate_req.version@ + "/download"@,
{
}

/// A download that has begun is found under its request, with its own handle,
/// and is received from then on. One that failed to begin is not, and its
/// error is handed on. Nothing else in the table changes.
pub proof fn law_download_is_entered_where_it_began<T, E>(
    active: &mut ActiveDownloads<T>,
    krate_req: &CrateReq,
    begun: Result<T, E>,
    entered: Result<TransferState, E>,
)
    requires
        call_ensures(krate::enter::<T, E>, (active, krate_req, begun), entered),
    ensures
        begun is Ok <==> entered is Ok,
        begun is Ok ==> final(active)@.contains_pair(krate_req.model(), begun->Ok_0)
            && entered->Ok_0 == TransferState::Receiving,
        begun is Err ==> final(active)@ == old(active)@ && entered->Err_0 == begun->Err_0,
        final(active)@.remove(krate_req.model()) == old(active)@.remove(krate_req.model()),
{
    assert(final(active)@.remove(krate_req.model()) =~= old(active)@.remove(krate_req.model()));
}

/// Content is taken to be stored exactly where the store answered, with another
/// status than 404, and reported the very digest of the content.
pub proof fn law_content_is_stored_where_its_digest_is_reported(
    outcome: &Option<HeadOutcome>,
    content: &[u8],
    stored: bool,
    md5: String,
)
    requires
        call_ensures(krate::already_stored, (outcome, content), stored),
        call_ensures(digest::md5_hash, (content,), md5),
    ensures
        stored <==> *outcome is Some && outcome->Some_0.status != 404
            && outcome->Some_0.content_md5 is Text && outcome->Some_0.content_md5->Text_0@ == md5@,
        stored ==> written::writes_base64(
            outcome->Some_0.content_md5->Text_0@,
            digest::md5_digest(content@),
        ),
{
    written::lemma_base64(digest::md5_digest(content@));
    reveal_strlit("null");
    reveal_strlit("invalid");
}

/// A header that can be read stands for itself. One that is missing or cannot
/// be read has a text of its own.
pub proof fn law_readable_header_stands_for_itself(header: &HeaderText, text: String)
    requires
        call_ensures(HeaderText::or_placeholder, (header,), text),
    ensures
        *header is Text ==> text@ == header->Text_0@,
        *header is Missing ==> text@ == "null"@,
        *header is Unreadable ==> text@ == "invalid"@,
{
}

/// A crate that is being downloaded is answered with 200 and as an archive, any
/// other with 404 and without a body.
pub proof fn law_answer_says_whether_there_is_a_crate(downloading: bool, answer: SyncAnswer)
    requires
        call_ensures(krate::sync_answer, (downloading,), answer),
    ensures
        answer.status == 200 <==> downloading,
        answer.status == 404 <==> !downloading,
        answer.content_type is Some <==> downloading,
        downloading ==> answer.content_type->Some_0@ == "application/x-tar"@,
{
}

} // verus!
