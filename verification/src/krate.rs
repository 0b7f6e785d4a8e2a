//! Crates that are being downloaded.

use crate::alike::Alike;
use crate::bos::bucket::BucketView;
use crate::bos::credentials::CredentialsView;
use crate::buffer;
use crate::crate_req;
use crate::crate_req::{CrateReq, CrateReqModel};
use crate::digest;
use crate::table::Table;
use crate::transfer;
use crate::transfer::{TransferAction, TransferEvent, TransferState};
use crate::weburl::UrlPartsView;
use bytes::{Bytes, BytesMut};
use vstd::prelude::*;
use vstd::slice::*;

verus! {

/// The downloads that are under way, each with a handle on it.
pub type ActiveDownloads<T> = Table<CrateReq, T>;

/// What is to be done for a crate that is asked for.
pub enum Begin<'a, T> {
    /// The crate is being downloaded already.
    Active(&'a T),
    /// The crate is to be fetched from this address.
    Fetch(String),
}

/// What is to be done for a crate that is asked for.
pub enum BeginView<T> {
    Active(T),
    Fetch(Seq<char>),
}

/// What is to be done for the crate `req`, where the downloads in `active` are
/// under way.
pub open spec fn begin_for<T>(active: Map<CrateReqModel, T>, req: CrateReqModel) -> BeginView<T> {
    if active.dom().contains(req) {
        BeginView::Active(active[req])
    } else {
        BeginView::Fetch(crate_req::download_uri_text(req.name, req.version))
    }
}

/// Looks for `krate_req` among the active downloads.
pub fn begin<'a, T>(active: &'a ActiveDownloads<T>, krate_req: &CrateReq) -> (begin: Begin<'a, T>)
    ensures
        match begin {
            Begin::Active(handle) => begin_for(active@, krate_req.model()) == BeginView::Active(
                *handle,
            ),
            Begin::Fetch(uri) => begin_for(active@, krate_req.model()) == BeginView::<T>::Fetch(
                uri@,
            ),
        },
{
    match active.get(krate_req) {
        Some(handle) => Begin::Active(handle),
        None => Begin::Fetch(krate_req.download_uri()),
    }
}

/// A crate is fetched once as long as its download is active: whoever asks for
/// it meanwhile gets the handle on that download. Once it is taken off it is
/// fetched again. Other crates are not concerned.
pub proof fn law_fetched_once_while_active<T>(
    active: Map<CrateReqModel, T>,
    req: CrateReqModel,
    handle: T,
    other: CrateReqModel,
)
    ensures
        ({
            let entered = entered_in(active, req, Ok::<T, CrateError>(handle));
            &&& begin_for(entered, req) == BeginView::Active(handle)
            &&& begin_for(entered.remove(req), req) is Fetch
            &&& other != req ==> begin_for(entered, other) == begin_for(active, other)
                && begin_for(entered.remove(req), other) == begin_for(active, other)
        }),
{
}

/// The active downloads, once the download of `req` has begun with the handle
/// in `begun`, or has failed to.
pub open spec fn entered_in<T, E>(
    active: Map<CrateReqModel, T>,
    req: CrateReqModel,
    begun: Result<T, E>,
) -> Map<CrateReqModel, T> {
    match begun {
        Ok(handle) => active.insert(req, handle),
        Err(_) => active,
    }
}

/// Enters a download among the active ones where it has begun: the state from
/// which its transfer goes on. Where it failed to begin nothing is entered,
/// and there is no transfer.
pub fn enter<T, E>(
    active: &mut ActiveDownloads<T>,
    krate_req: &CrateReq,
    begun: Result<T, E>,
) -> (entered: Result<TransferState, E>)
    ensures
        final(active)@ == entered_in(old(active)@, krate_req.model(), begun),
        entered == match begun {
            Ok(_) => Ok::<TransferState, E>(TransferState::Receiving),
            Err(error) => Err::<TransferState, E>(error),
        },
{
    match begun {
        Ok(handle) => {
            active.insert(krate_req.duplicate(), handle);
            Ok(TransferState::Receiving)
        },
        Err(error) => Err(error),
    }
}

/// A download that fails to begin leaves the active downloads as they were, so
/// that whoever asks for that crate next, or for any other, is served as
/// before: one that was to be fetched is fetched again.
pub proof fn law_failed_download_is_tried_again<T, E>(
    active: Map<CrateReqModel, T>,
    req: CrateReqModel,
    error: E,
    other: CrateReqModel,
)
    ensures
        entered_in(active, req, Err::<T, E>(error)) == active,
        begin_for(entered_in(active, req, Err::<T, E>(error)), other) == begin_for(active, other),
        begin_for(active, req) is Fetch ==> begin_for(
            entered_in(active, req, Err::<T, E>(error)),
            req,
        ) == BeginView::<T>::Fetch(crate_req::download_uri_text(req.name, req.version)),
{
}

/// A header of a response.
pub enum HeaderText {
    /// The response has no such header.
    Missing,
    /// The value of the header is no visible ASCII text.
    Unreadable,
    /// The value of the header.
    Text(String),
}

/// The text that stands for a header, whether or not there is one to read.
pub open spec fn header_text(header: HeaderText) -> Seq<char> {
    match header {
        HeaderText::Missing => "null"@,
        HeaderText::Unreadable => "invalid"@,
        HeaderText::Text(text) => text@,
    }
}

impl HeaderText {
    /// The text that stands for the header.
    pub fn or_placeholder(&self) -> (text: String)
        ensures
            text@ == header_text(*self),
    {
        match self {
            HeaderText::Missing => "null".to_owned(),
            HeaderText::Unreadable => "invalid".to_owned(),
            HeaderText::Text(text) => text.clone(),
        }
    }
}

/// What the source answered, up to the body.
pub struct ResponseHead {
    /// The status code.
    pub status: u16,
    /// The announced length of the body.
    pub content_length: Option<u64>,
    /// The type of the body.
    pub content_type: HeaderText,
}

/// Why a crate cannot be downloaded.
#[derive(Clone, Copy, Debug, PartialEq, Eq, Structural)]
pub enum CrateError {
    /// The source did not hand out the crate.
    FetchFail,
    /// The answer lacks its length or its type.
    MissingField,
    /// The type of the answer is no visible ASCII text.
    UnreadableHeader,
}

/// A crate that is being downloaded.
#[derive(Debug)]
pub struct Crate {
    /// The name of the crate.
    pub name: String,
    /// The version of the crate.
    pub version: String,
    /// The type of its content.
    pub content_type: String,
    /// How many bytes the source announced.
    pub content_length: usize,
}

/// The parts of a crate.
pub struct CrateView {
    pub name: Seq<char>,
    pub version: Seq<char>,
    pub content_type: Seq<char>,
    pub content_length: usize,
}

impl View for Crate {
    type V = CrateView;

    open spec fn view(&self) -> CrateView {
        CrateView {
            name: self.name@,
            version: self.version@,
            content_type: self.content_type@,
            content_length: self.content_length,
        }
    }
}

impl Clone for Crate {
    fn clone(&self) -> (copy: Self)
        ensures
            copy@ == self@,
    {
        Crate {
            name: self.name.clone(),
            version: self.version.clone(),
            content_type: self.content_type.clone(),
            content_length: self.content_length,
        }
    }
}

/// What a download of the crate `req` begins with, where the source answers
/// with `response`. The status is looked at first, then the length, then the
/// type.
pub open spec fn created(req: CrateReqModel, response: ResponseHead) -> Result<CrateView, CrateError> {
    if response.status != 200 {
        Err(CrateError::FetchFail)
    } else {
        match response.content_length {
            None => Err(CrateError::MissingField),
            Some(content_length) => match response.content_type {
                HeaderText::Missing => Err(CrateError::MissingField),
                HeaderText::Unreadable => Err(CrateError::UnreadableHeader),
                HeaderText::Text(content_type) => Ok(
                    CrateView {
                        name: req.name,
                        version: req.version,
                        content_type: content_type@,
                        content_length: content_length as usize,
                    },
                ),
            },
        }
    }
}

impl Crate {
    /// Begins the download of a crate, once the source has answered.
    pub fn create(krate_req: &CrateReq, response: ResponseHead) -> (krate: Result<Self, CrateError>)
        ensures
            match krate {
                Ok(krate) => created(krate_req.model(), response) == Ok::<CrateView, CrateError>(krate@),
                Err(error) => created(krate_req.model(), response) == Err::<CrateView, CrateError>(
                    error,
                ),
            },
    {
        if response.status != 200 {
            return Err(CrateError::FetchFail);
        }
        let content_length = match response.content_length {
            Some(content_length) => content_length as usize,
            None => {
                return Err(CrateError::MissingField);
            },
        };
        match response.content_type {
            HeaderText::Missing => Err(CrateError::MissingField),
            HeaderText::Unreadable => Err(CrateError::UnreadableHeader),
            HeaderText::Text(content_type) => Ok(
                Crate {
                    name: krate_req.name.clone(),
                    version: krate_req.version.clone(),
                    content_type,
                    content_length,
                },
            ),
        }
    }

    /// Begins to pass the crate's content on, from its first byte.
    pub fn tee(&self) -> (tee: Tee)
        ensures
            tee@ == (TeeView { sent: 0, content_length: self@.content_length as nat }),
    {
        Tee { ptr: 0, content_length: self.content_length }
    }
}

/// How a request for a crate is answered, up to the body.
#[derive(Debug)]
pub struct SyncAnswer {
    /// The status code.
    pub status: u16,
    /// The type of the body, where there is one.
    pub content_type: Option<String>,
}

/// How a request for a crate is answered, where there is a download of it and
/// where there is none.
pub open spec fn answers(answer: SyncAnswer, downloading: bool) -> bool {
    if downloading {
        answer.status == 200 && answer.content_type.model() == Some("application/x-tar"@)
    } else {
        answer.status == 404 && answer.content_type is None
    }
}

/// How a request for a crate is answered: with the crate as it is downloaded,
/// or as not found.
pub fn sync_answer(downloading: bool) -> (answer: SyncAnswer)
    ensures
        answers(answer, downloading),
{
    if downloading {
        SyncAnswer { status: 200, content_type: Some("application/x-tar".to_owned()) }
    } else {
        SyncAnswer { status: 404, content_type: None }
    }
}

/// A crate that the source does not hand out is answered as not found, and one
/// that it hands out with its length and its type is passed on.
pub proof fn law_answered_as_the_source_answers(
    req: CrateReqModel,
    response: ResponseHead,
    answer: SyncAnswer,
)
    requires
        answers(answer, created(req, response) is Ok),
    ensures
        response.status != 200 ==> answer.status == 404,
        response.status == 200 && response.content_length is Some && response.content_type is Text
            <==> answer.status == 200,
{
}

/// What has been received of a crate.
pub struct DownloadBuffer {
    bytes: BytesMut,
}

impl View for DownloadBuffer {
    type V = Seq<u8>;

    closed spec fn view(&self) -> Seq<u8> {
        buffer::buffer_held(self.bytes)
    }
}

impl DownloadBuffer {
    /// An empty buffer with room for `content_length` bytes.
    pub fn new(content_length: usize) -> (buffer: Self)
        requires
            content_length <= isize::MAX,
        ensures
            buffer@ == Seq::<u8>::empty(),
    {
        DownloadBuffer { bytes: buffer::buffer_with_capacity(content_length) }
    }

    /// How many bytes have been received.
    pub fn len(&self) -> (len: usize)
        ensures
            len == self@.len(),
    {
        buffer::buffer_slice(&self.bytes).len()
    }

    /// Adds `data` to what has been received, and says how much that was.
    pub fn receive(&mut self, data: &[u8]) -> (received: usize)
        requires
            old(self)@.len() + data@.len() <= isize::MAX / 2,
        ensures
            final(self)@ == old(self)@ + data@,
            received == data@.len(),
    {
        buffer::buffer_extend(&mut self.bytes, data);
        data.len()
    }

    /// A copy of all that has been received.
    pub fn content(&self) -> (content: Bytes)
        ensures
            buffer::bytes_held(content) == self@,
    {
        buffer::buffer_freeze(buffer::buffer_clone(&self.bytes))
    }
}

/// What the source gives next.
pub enum Piece {
    /// A piece of the crate.
    Data(Bytes),
    /// An error: the source broke off.
    Broken,
    /// Nothing: the source has no more to give.
    Ended,
}

/// What the source gives next.
pub enum PieceView {
    Data(Seq<u8>),
    Broken,
    Ended,
}

impl View for Piece {
    type V = PieceView;

    open spec fn view(&self) -> PieceView {
        match self {
            Piece::Data(data) => PieceView::Data(buffer::bytes_held(*data)),
            Piece::Broken => PieceView::Broken,
            Piece::Ended => PieceView::Ended,
        }
    }
}

/// What a piece means to a transfer.
pub open spec fn event_of(piece: PieceView) -> TransferEvent {
    match piece {
        PieceView::Data(_) => TransferEvent::Chunk,
        PieceView::Broken => TransferEvent::Broken,
        PieceView::Ended => TransferEvent::Ended,
    }
}

/// How far the receiving of a crate has come.
pub struct Progress {
    /// The state of the transfer.
    pub state: TransferState,
    /// What has been received.
    pub received: Seq<u8>,
    /// How much was received each time that more was signalled.
    pub signals: Seq<nat>,
}

/// How the receiving goes on with `piece`: a piece of the crate is added, and
/// signalled, as long as the transfer is receiving.
pub open spec fn with_piece(progress: Progress, piece: PieceView) -> Progress {
    let state = transfer::next(progress.state, event_of(piece)).0;
    match piece {
        PieceView::Data(data) => if progress.state == TransferState::Receiving {
            Progress {
                state,
                received: progress.received + data,
                signals: progress.signals.push(data.len()),
            }
        } else {
            Progress { state, ..progress }
        },
        _ => Progress { state, ..progress },
    }
}

/// Takes in what the source gave: what is to be done next, and how much was
/// received, where that is to be signalled.
pub fn take_in(state: &mut TransferState, buffer: &mut DownloadBuffer, piece: Piece) -> (taken: (
    TransferAction,
    Option<usize>,
))
    requires
        *old(state) == TransferState::Receiving && piece@ is Data ==> old(buffer)@.len()
            + piece@->Data_0.len() <= isize::MAX / 2,
    ensures
        taken.0 == transfer::next(*old(state), event_of(piece@)).1,
        ({
            let before = Progress {
                state: *old(state),
                received: old(buffer)@,
                signals: Seq::empty(),
            };
            let after = with_piece(before, piece@);
            &&& *final(state) == after.state
            &&& final(buffer)@ == after.received
            &&& after.signals == match taken.1 {
                Some(len) => seq![len as nat],
                None => Seq::empty(),
            }
        }),
{
    match piece {
        Piece::Data(data) => {
            let signal = if *state == TransferState::Receiving {
                Some(buffer.receive(buffer::bytes_slice(&data)))
            } else {
                None
            };
            (state.step(TransferEvent::Chunk), signal)
        },
        Piece::Broken => (state.step(TransferEvent::Broken), None),
        Piece::Ended => (state.step(TransferEvent::Ended), None),
    }
}

/// How far the receiving of a crate has come once the source gave `pieces`.
pub open spec fn progress_after(pieces: Seq<PieceView>) -> Progress
    decreases pieces.len(),
{
    if pieces.len() == 0 {
        Progress {
            state: TransferState::Receiving,
            received: Seq::empty(),
            signals: Seq::empty(),
        }
    } else {
        with_piece(progress_after(pieces.drop_last()), pieces.last())
    }
}

/// The bytes of pieces that are all pieces of the crate.
pub open spec fn data_of(pieces: Seq<PieceView>) -> Seq<Seq<u8>> {
    Seq::new(pieces.len(), |i: int| pieces[i]->Data_0)
}

/// Whether the first `n` of `pieces`, and no more, come before the end: they
/// are pieces of the crate, and what follows them, if anything, is an error or
/// the end.
pub open spec fn end_at(pieces: Seq<PieceView>, n: int) -> bool {
    &&& 0 <= n <= pieces.len()
    &&& forall|i: int| 0 <= i < n ==> #[trigger] pieces[i] is Data
    &&& n < pieces.len() ==> !(pieces[n] is Data)
}

/// What has been received of a crate is its pieces, put together in order, up
/// to the end or the first error. Nothing that comes after is added, each
/// piece is signalled once with its length, and the transfer goes on receiving
/// until then and no longer.
pub proof fn law_received_is_the_pieces_before_the_end(pieces: Seq<PieceView>, n: int)
    requires
        end_at(pieces, n),
    ensures
        progress_after(pieces).received == data_of(pieces.take(n)).flatten(),
        progress_after(pieces).signals == Seq::new(n as nat, |i: int| pieces[i]->Data_0.len()),
        progress_after(pieces).state == if n == pieces.len() {
            TransferState::Receiving
        } else {
            TransferState::Checking
        },
    decreases pieces.len(),
{
    if pieces.len() == 0 {
        assert(data_of(pieces.take(n)) =~= Seq::<Seq<u8>>::empty());
    } else {
        let before = pieces.drop_last();
        if n < pieces.len() {
            law_received_is_the_pieces_before_the_end(before, n);
            assert(before.take(n) =~= pieces.take(n));
            assert(progress_after(pieces).signals =~= Seq::new(
                n as nat,
                |i: int| pieces[i]->Data_0.len(),
            ));
        } else {
            law_received_is_the_pieces_before_the_end(before, n - 1);
            assert(before.take(n - 1) =~= before);
            assert(pieces.take(n) =~= pieces);
            assert(pieces[n - 1] is Data);
            assert(data_of(pieces) =~= data_of(before).push(pieces.last()->Data_0));
            data_of(before).lemma_flatten_push(pieces.last()->Data_0);
            assert(progress_after(pieces).signals =~= Seq::new(
                n as nat,
                |i: int| pieces[i]->Data_0.len(),
            ));
        }
    }
}

/// What has been received only ever grows: what it was at one moment is what
/// it begins with at every later one.
pub proof fn law_received_only_grows(pieces: Seq<PieceView>, i: int, j: int)
    requires
        0 <= i <= j <= pieces.len(),
    ensures
        progress_after(pieces.take(i)).received.is_prefix_of(
            progress_after(pieces.take(j)).received,
        ),
    decreases j,
{
    if i < j {
        law_received_only_grows(pieces, i, j - 1);
        assert(pieces.take(j).drop_last() =~= pieces.take(j - 1));
    }
}

/// Passes a crate's content on while it is being received.
pub struct Tee {
    ptr: usize,
    content_length: usize,
}

/// How far the content has been passed on, and how far it goes.
pub struct TeeView {
    pub sent: nat,
    pub content_length: nat,
}

impl View for Tee {
    type V = TeeView;

    closed spec fn view(&self) -> TeeView {
        TeeView { sent: self.ptr as nat, content_length: self.content_length as nat }
    }
}

/// What of `received` has not been passed on yet, where the first `sent` bytes
/// have been.
pub open spec fn unsent(received: Seq<u8>, sent: nat) -> Seq<u8> {
    received.skip(sent as int)
}

/// What a tee does next.
#[derive(Clone, Copy, Debug, PartialEq, Eq, Structural)]
pub enum TeeStep {
    /// Pass on what has been received since.
    SendMore,
    /// Wait until more has been received.
    AwaitMore,
    /// Wait for the receiver to leave, and stop.
    AwaitClose,
    /// Stop.
    Stop,
}

impl Tee {
    /// How many bytes have been passed on.
    pub fn sent(&self) -> (sent: usize)
        ensures
            sent == self@.sent,
    {
        self.ptr
    }

    /// What has been received and not been passed on yet, which is then taken
    /// to be passed on.
    pub fn next_chunk(&mut self, buffer: &DownloadBuffer) -> (chunk: Bytes)
        requires
            old(self)@.sent <= buffer@.len(),
        ensures
            buffer::bytes_held(chunk) == unsent(buffer@, old(self)@.sent),
            final(self)@ == (TeeView { sent: buffer@.len(), ..old(self)@ }),
    {
        let received = buffer::buffer_slice(&buffer.bytes);
        let chunk = slice_subrange(received, self.ptr, received.len());
        self.ptr = received.len();
        buffer::bytes_copied(chunk)
    }

    /// What follows when a chunk was or was not delivered: the tee stops where
    /// nobody listens and where all that was announced has been passed on.
    pub fn after_send(&self, delivered: bool) -> (step: TeeStep)
        ensures
            step == if !delivered || self@.sent == self@.content_length {
                TeeStep::Stop
            } else {
                TeeStep::AwaitMore
            },
    {
        if !delivered || self.ptr == self.content_length {
            TeeStep::Stop
        } else {
            TeeStep::AwaitMore
        }
    }

    /// What follows when more was received, or the download ended without.
    pub fn after_wait(&self, changed: bool) -> (step: TeeStep)
        ensures
            step == if changed {
                TeeStep::SendMore
            } else {
                TeeStep::AwaitClose
            },
    {
        if changed {
            TeeStep::SendMore
        } else {
            TeeStep::AwaitClose
        }
    }
}

/// What the store said of an object.
pub struct HeadOutcome {
    /// The status code.
    pub status: u16,
    /// The digest of the object.
    pub content_md5: HeaderText,
}

/// Whether what the store said shows that it holds `content` already. It said
/// nothing where there is no outcome.
pub open spec fn holds_content(outcome: Option<HeadOutcome>, content: Seq<u8>) -> bool {
    match outcome {
        Some(outcome) => outcome.status != 404 && header_text(outcome.content_md5)
            == digest::md5_text(content),
        None => false,
    }
}

/// Whether the store holds `content` already, by what it said. Without a
/// digest to compare it does not.
pub fn already_stored(outcome: &Option<HeadOutcome>, content: &[u8]) -> (stored: bool)
    ensures
        stored == holds_content(*outcome, content@),
        stored ==> outcome->Some_0.content_md5 is Text,
{
    let md5 = digest::md5_hash(content);
    proof {
        reveal_strlit("null");
        reveal_strlit("invalid");
    }
    match outcome {
        Some(outcome) => outcome.status != 404 && outcome.content_md5.or_placeholder() == md5,
        None => false,
    }
}

/// What was stored is recognised: where the store reports the digest that an
/// object was stored with, content is taken for the stored one where it has
/// the same digest, and only there. The very same content always has.
pub proof fn law_stored_content_is_recognised(
    bucket: BucketView,
    key: Seq<char>,
    stored: Seq<u8>,
    parts: UrlPartsView,
    date: Seq<char>,
    creds: CredentialsView,
    outcome: HeadOutcome,
    content: Seq<u8>,
)
    requires
        outcome.status != 404,
        header_text(outcome.content_md5) == bucket.put_request(
            key,
            stored,
            parts,
            date,
            creds,
        ).content_md5,
    ensures
        holds_content(Some(outcome), stored),
        holds_content(Some(outcome), content) <==> digest::md5_digest(content)
            == digest::md5_digest(stored),
{
    if holds_content(Some(outcome), content) {
        digest::law_base64_tells_bytes_apart(
            digest::md5_digest(content),
            digest::md5_digest(stored),
        );
    }
}

/// The chunks that a tee takes from a buffer, one at each of the moments at
/// which the buffer held what `received` lists.
pub open spec fn chunks(received: Seq<Seq<u8>>) -> Seq<Seq<u8>> {
    Seq::new(
        received.len(),
        |i: int|
            unsent(
                received[i],
                if i == 0 {
                    0
                } else {
                    received[i - 1].len()
                },
            ),
    )
}

/// Whether each of `received` begins with every one before it: a buffer that
/// only grows.
pub open spec fn only_grows(received: Seq<Seq<u8>>) -> bool {
    forall|i: int, j: int|
        0 <= i <= j < received.len() ==> (#[trigger] received[i]).is_prefix_of(
            #[trigger] received[j],
        )
}

/// The chunks that a tee passes on, put together, are what has been received,
/// with no byte missing and none twice.
pub proof fn law_chunks_make_up_the_content(received: Seq<Seq<u8>>)
    requires
        received.len() > 0,
        only_grows(received),
    ensures
        chunks(received).flatten() == received.last(),
    decreases received.len(),
{
    let all = chunks(received);
    if received.len() == 1 {
        assert(received[0].skip(0) =~= received[0]);
        assert(all =~= seq![received[0]]);
        all.lemma_flatten_one_element();
    } else {
        let before = received.drop_last();
        assert(only_grows(before)) by {
            assert forall|i: int, j: int| 0 <= i <= j < before.len() implies (
            #[trigger] before[i]).is_prefix_of(#[trigger] before[j]) by {
                assert(received[i].is_prefix_of(received[j]));
            }
        }
        law_chunks_make_up_the_content(before);
        assert(all =~= chunks(before).push(all.last()));
        chunks(before).lemma_flatten_push(all.last());
        let last = received[received.len() - 1];
        assert(received[received.len() - 2].is_prefix_of(last));
        assert(before.last() + last.skip(before.last().len() as int) =~= last);
    }
}

/// What a receiver is sent, put together, is the crate as far as it has come:
/// where a tee looks at the buffer at the given moments, each counted in
/// pieces that the source had given, its chunks make up all that had been
/// received at the last of them.
pub proof fn law_tee_passes_on_what_was_received(pieces: Seq<PieceView>, moments: Seq<int>)
    requires
        moments.len() > 0,
        forall|i: int, j: int| 0 <= i <= j < moments.len() ==> moments[i] <= moments[j],
        forall|i: int| 0 <= i < moments.len() ==> 0 <= #[trigger] moments[i] <= pieces.len(),
    ensures
        chunks(
            Seq::new(moments.len(), |i: int| progress_after(pieces.take(moments[i])).received),
        ).flatten() == progress_after(pieces.take(moments.last())).received,
{
    let received = Seq::new(
        moments.len(),
        |i: int| progress_after(pieces.take(moments[i])).received,
    );
    assert forall|i: int, j: int| 0 <= i <= j < received.len() implies (
    #[trigger] received[i]).is_prefix_of(#[trigger] received[j]) by {
        law_received_only_grows(pieces, moments[i], moments[j]);
    }
    law_chunks_make_up_the_content(received);
}

} // verus!
