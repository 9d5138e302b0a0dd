use vstd::prelude::*;

use crate::error::Error;
use crate::message::TunnelledStreamId;
use tokio::io::{ReadHalf, WriteHalf};
use tokio::net::TcpStream;
use tokio_util::sync::CancellationToken;

verus! {

#[verifier::external_type_specification]
#[verifier::external_body]
#[verifier::reject_recursive_types(T)]
pub struct ExWriteHalf<T>(WriteHalf<T>);

#[verifier::external_type_specification]
#[verifier::external_body]
#[verifier::reject_recursive_types(T)]
pub struct ExReadHalf<T>(ReadHalf<T>);

#[verifier::external_type_specification]
#[verifier::external_body]
pub struct ExTcpStream(TcpStream);

#[verifier::external_type_specification]
#[verifier::external_body]
pub struct ExCancellationToken(CancellationToken);

/// Calls `tokio_util::sync::CancellationToken::new`. The token is opaque:
/// nothing is claimed of it.
#[verifier::external_body]
fn new_cancellation_token() -> CancellationToken {
    CancellationToken::new()
}

/// Calls `CancellationToken::clone`. Its source builds the clone around a
/// clone of the same `Arc` to the token's shared node (and tokio-util's
/// `PartialEq` counts two tokens as equal exactly when they share that
/// node), so the contract claims that the clone is the same token: cancelling
/// either cancels both.
#[verifier::external_body]
fn clone_cancellation_token(token: &CancellationToken) -> (r: CancellationToken)
    ensures
        r == *token,
{
    token.clone()
}

/// The writing half of a local connection that carries a tunnelled stream.
#[derive(Debug)]
pub struct WritableStream {
    tx: WriteHalf<TcpStream>,
    id: TunnelledStreamId,
}

impl WritableStream {
    /// The identifier of the tunnelled stream that the connection carries.
    pub closed spec fn tunnelled_id(&self) -> TunnelledStreamId {
        self.id
    }

    /// Wraps the writing half `tx` of the connection that carries stream `id`.
    pub fn new(id: TunnelledStreamId, tx: WriteHalf<TcpStream>) -> (r: Self)
        ensures
            r.tunnelled_id() == id,
            r.write_half() == tx,
    {
        Self { id, tx }
    }

    /// The identifier of the tunnelled stream.
    pub fn id(&self) -> (r: TunnelledStreamId)
        ensures
            r == self.tunnelled_id(),
    {
        self.id
    }

    /// The writing half of the connection.
    pub closed spec fn write_half(&self) -> WriteHalf<TcpStream> {
        self.tx
    }

    /// The writing half, for writing the stream's data.
    pub fn tx_mut(&mut self) -> (r: &mut WriteHalf<TcpStream>)
        ensures
            *r == old(self).write_half(),
            final(self).write_half() == *final(r),
            final(self).tunnelled_id() == old(self).tunnelled_id(),
    {
        &mut self.tx
    }
}

/// The reading half of a local connection that carries a tunnelled stream,
/// with the token by which pending reads are cancelled.
#[derive(Debug)]
pub struct ReadableStream {
    id: TunnelledStreamId,
    rx: ReadHalf<TcpStream>,
    cancel: CancellationToken,
}

impl ReadableStream {
    /// The identifier of the tunnelled stream that the connection carries.
    pub closed spec fn tunnelled_id(&self) -> TunnelledStreamId {
        self.id
    }

    /// Wraps the reading half `rx` of the connection that carries stream
    /// `id`, with a fresh cancellation token.
    pub fn new(id: TunnelledStreamId, rx: ReadHalf<TcpStream>) -> (r: Self)
        ensures
            r.tunnelled_id() == id,
            r.read_half() == rx,
    {
        let cancel = new_cancellation_token();
        Self { id, rx, cancel }
    }

    /// The identifier of the tunnelled stream.
    pub fn id(&self) -> (r: TunnelledStreamId)
        ensures
            r == self.tunnelled_id(),
    {
        self.id
    }

    /// The token by which the stream's reads are cancelled.
    pub closed spec fn cancellation(&self) -> CancellationToken {
        self.cancel
    }

    /// A token that cancels the stream's pending and future reads: the
    /// stream's own cancellation token.
    pub fn cancellation_token(&self) -> (r: CancellationToken)
        ensures
            r == self.cancellation(),
    {
        clone_cancellation_token(&self.cancel)
    }

    /// The reading half of the connection.
    pub closed spec fn read_half(&self) -> ReadHalf<TcpStream> {
        self.rx
    }

    /// The reading half, for reading the stream's data.
    pub fn rx_mut(&mut self) -> (r: &mut ReadHalf<TcpStream>)
        ensures
            *r == old(self).read_half(),
            final(self).read_half() == *final(r),
            final(self).tunnelled_id() == old(self).tunnelled_id(),
    {
        &mut self.rx
    }
}

/// What ends a pending read of a [`ReadableStream`]: the read itself
/// completed (with the number of bytes read, or an I/O error), or the
/// stream's cancellation token fired first.
#[derive(Debug)]
pub enum ReadEvent {
    Completed(Result<usize, std::io::Error>),
    Cancelled,
}

/// The outcome of a read: the number of bytes read, the read's I/O error,
/// or `Canceled` when the stream was cancelled before the read completed.
pub fn read_outcome(event: ReadEvent) -> (r: Result<usize, Error>)
    ensures
        match event {
            ReadEvent::Completed(Ok(n)) => r == Ok::<usize, Error>(n),
            ReadEvent::Completed(Err(e)) => r == Err::<usize, Error>(Error::IOError(e)),
            ReadEvent::Cancelled => r == Err::<usize, Error>(Error::Canceled),
        },
{
    match event {
        ReadEvent::Completed(Ok(n)) => Ok(n),
        ReadEvent::Completed(Err(e)) => Err(Error::IOError(e)),
        ReadEvent::Cancelled => Err(Error::Canceled),
    }
}

} // verus!
