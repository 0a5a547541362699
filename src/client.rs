use std::sync::Arc;
use vstd::prelude::*;

use crate::response::{crlf_at, decode_spec, encode_spec, lemma_decode_round_trip, Response};
use vstd::utf8::encode_utf8;
use crate::RequestError;

verus! {

#[verifier::external_type_specification]
#[verifier::external_body]
pub struct ExClientConnection(rustls::ClientConnection);

#[verifier::external_type_specification]
#[verifier::external_body]
pub struct ExClientConfig(rustls::ClientConfig);

#[verifier::external_type_specification]
#[verifier::external_body]
pub struct ExServerName(rustls::ServerName);

#[verifier::external_type_specification]
#[verifier::external_body]
pub struct ExTlsError(rustls::Error);

#[verifier::external_type_specification]
#[verifier::external_body]
pub struct ExIoError(std::io::Error);

/// Relies on rustls::ClientConnection::new: starts a client handshake for
/// `name` under `config`.
#[verifier::external_body]
fn tls_connect(config: Arc<rustls::ClientConfig>, name: rustls::ServerName) -> (r: Result<
    rustls::ClientConnection,
    rustls::Error,
>) {
    rustls::ClientConnection::new(config, name)
}

/// Relies on the plaintext writer of rustls's connection (`writer().write_all`):
/// queues `data` for encryption.
#[verifier::external_body]
fn tls_write_plaintext(tls: &mut rustls::ClientConnection, data: &[u8]) -> (r: Result<
    (),
    std::io::Error,
>) {
    std::io::Write::write_all(&mut tls.writer(), data)
}

/// Relies on rustls's `process_new_packets`: on success, how many plaintext
/// bytes are ready to be read, and whether the peer sent close_notify.
#[verifier::external_body]
fn tls_process_packets(tls: &mut rustls::ClientConnection) -> (r: Result<
    (usize, bool),
    rustls::Error,
>) {
    let state = tls.process_new_packets()?;
    Ok((state.plaintext_bytes_to_read(), state.peer_has_closed()))
}

/// Relies on the plaintext reader of rustls's connection (`reader().read_exact`):
/// on success exactly `n` bytes come out.
#[verifier::external_body]
fn tls_read_plaintext(tls: &mut rustls::ClientConnection, n: usize) -> (r: Result<
    Vec<u8>,
    std::io::Error,
>)
    ensures
        r matches Ok(data) ==> data@.len() == n,
{
    let mut data = vec![0u8; n];
    std::io::Read::read_exact(&mut tls.reader(), &mut data)?;
    Ok(data)
}

/// Whether a session needs more ciphertext from its peer.
pub uninterp spec fn wants_read_of(tls: rustls::ClientConnection) -> bool;

/// Whether a session has ciphertext waiting to be sent.
pub uninterp spec fn wants_write_of(tls: rustls::ClientConnection) -> bool;

/// Whether an I/O error says that the operation would have blocked.
pub uninterp spec fn would_block_of(e: std::io::Error) -> bool;

/// Relies on std::io::Error::kind: the error is `WouldBlock`; the kind is
/// stored in the error.
#[verifier::external_body]
fn io_would_block(e: &std::io::Error) -> (r: bool)
    ensures
        r == would_block_of(*e),
{
    e.kind() == std::io::ErrorKind::WouldBlock
}

/// Relies on rustls's `wants_read`: whether the session needs more
/// ciphertext; it only reads the session's fields.
#[verifier::external_body]
fn tls_wants_read(tls: &rustls::ClientConnection) -> (r: bool)
    ensures
        r == wants_read_of(*tls),
{
    tls.wants_read()
}

/// Relies on rustls's `wants_write`: whether the session has ciphertext to
/// send; it only reads the session's fields.
#[verifier::external_body]
fn tls_wants_write(tls: &rustls::ClientConnection) -> (r: bool)
    ensures
        r == wants_write_of(*tls),
{
    tls.wants_write()
}

/// Readiness that the socket is registered for.
#[derive(Debug, Clone, Copy, PartialEq, Eq, Structural)]
pub struct Interest {
    pub readable: bool,
    pub writable: bool,
}

/// The interest for a session that wants to read and/or write. A readiness
/// multiplexer cannot register an empty interest, so a session that wants
/// neither waits for input.
pub open spec fn interest_spec(wants_read: bool, wants_write: bool) -> Interest {
    Interest { readable: wants_read || !wants_write, writable: wants_write }
}

/// The interest to register for the session's current needs.
pub fn interest_for(wants_read: bool, wants_write: bool) -> (r: Interest)
    ensures
        r == interest_spec(wants_read, wants_write),
        wants_read || wants_write ==> r.readable == wants_read && r.writable == wants_write,
{
    if wants_read && wants_write {
        Interest { readable: true, writable: true }
    } else if wants_write {
        Interest { readable: false, writable: true }
    } else {
        Interest { readable: true, writable: false }
    }
}

/// Where a fetch stands: still exchanging records, or the peer has ended the
/// stream in an orderly way (TCP end of file or TLS close_notify).
#[derive(Debug, Clone, Copy, PartialEq, Eq, Structural)]
pub enum Phase {
    Active,
    ClosingDetected,
}

/// The part of a fetch that is decided here: its phase and the plaintext
/// received so far, which only ever grows.
pub struct Exchange {
    phase: Phase,
    output: Vec<u8>,
}

impl View for Exchange {
    type V = (Phase, Seq<u8>);

    closed spec fn view(&self) -> (Phase, Seq<u8>) {
        (self.phase, self.output@)
    }
}

/// The plaintext accumulated from `out` by delivering `chunks` in order.
pub open spec fn deliver_spec(out: Seq<u8>, chunks: Seq<Seq<u8>>) -> Seq<u8>
    decreases chunks.len(),
{
    if chunks.len() == 0 {
        out
    } else {
        deliver_spec(out + chunks[0], chunks.skip(1))
    }
}

proof fn lemma_deliver_flattens(out: Seq<u8>, chunks: Seq<Seq<u8>>)
    ensures
        deliver_spec(out, chunks) == out + chunks.flatten(),
    decreases chunks.len(),
{
    if chunks.len() > 0 {
        lemma_deliver_flattens(out + chunks[0], chunks.skip(1));
        assert(chunks.flatten() == chunks[0] + chunks.skip(1).flatten()) by {
            assert(chunks.skip(1) =~= chunks.drop_first());
        };
        assert(out + chunks[0] + chunks.skip(1).flatten() =~= out + chunks.flatten());
    }
}

/// However a reply is cut into pieces, delivering the pieces in order leaves
/// the same plaintext, and so decodes to the same reply, as delivering it in
/// one piece.
pub proof fn lemma_split_delivery(chunks: Seq<Seq<u8>>)
    ensures
        deliver_spec(Seq::empty(), chunks) == deliver_spec(Seq::empty(), seq![chunks.flatten()]),
        decode_spec(deliver_spec(Seq::empty(), chunks)) == decode_spec(chunks.flatten()),
{
    lemma_deliver_flattens(Seq::empty(), chunks);
    lemma_deliver_flattens(Seq::empty(), seq![chunks.flatten()]);
    assert(seq![chunks.flatten()].flatten() =~= chunks.flatten()) by {
        reveal_with_fuel(Seq::flatten, 2);
    };
    assert(Seq::<u8>::empty() + chunks.flatten() =~= chunks.flatten());
}

/// Delivering one more piece appends it to what was delivered before, so a
/// sequence of deliveries accumulates the pieces in order.
pub proof fn lemma_deliver_push(out: Seq<u8>, chunks: Seq<Seq<u8>>, piece: Seq<u8>)
    ensures
        deliver_spec(out, chunks.push(piece)) == deliver_spec(out, chunks) + piece,
{
    lemma_deliver_flattens(out, chunks.push(piece));
    lemma_deliver_flattens(out, chunks);
    chunks.lemma_flatten_push(piece);
    assert(out + (chunks.flatten() + piece) =~= out + chunks.flatten() + piece);
}

/// A well-formed reply delivered in any number of pieces, at any byte
/// boundaries, decodes to exactly the status, meta and body it was made of.
pub proof fn lemma_reply_in_pieces(
    status: u8,
    sep: u8,
    meta: Seq<char>,
    body: Seq<u8>,
    chunks: Seq<Seq<u8>>,
)
    requires
        status < 100,
        forall|j: int| !crlf_at(encode_utf8(meta), j),
        chunks.flatten() == encode_spec(status, sep, meta, body),
    ensures
        decode_spec(deliver_spec(Seq::empty(), chunks)) == Some((status, meta, body)),
{
    lemma_split_delivery(chunks);
    lemma_decode_round_trip(status, sep, meta, body);
}

impl Exchange {
    pub fn new() -> (r: Exchange)
        ensures
            r@ == (Phase::Active, Seq::<u8>::empty()),
    {
        Exchange { phase: Phase::Active, output: Vec::new() }
    }

    /// Appends newly decrypted plaintext; a close_notify from the peer ends
    /// the exchange.
    pub fn on_plaintext(&mut self, data: &[u8], peer_closed: bool)
        ensures
            final(self)@.1 == old(self)@.1 + data@,
            final(self)@.0 == (if peer_closed {
                Phase::ClosingDetected
            } else {
                old(self)@.0
            }),
    {
        let mut i: usize = 0;
        while i < data.len()
            invariant
                i <= data@.len(),
                self.phase == old(self).phase,
                self.output@ == old(self).output@ + data@.take(i as int),
            decreases data@.len() - i,
        {
            self.output.push(data[i]);
            i = i + 1;
            assert(old(self).output@ + data@.take(i as int) =~= old(self).output@ + data@.take(
                (i - 1) as int,
            ) + seq![data@[i - 1]]);
        }
        assert(data@.take(data@.len() as int) =~= data@);
        if peer_closed {
            self.phase = Phase::ClosingDetected;
        }
    }

    /// The transport reached end of file: the exchange ends, keeping what
    /// was received.
    pub fn on_eof(&mut self)
        ensures
            final(self)@ == (Phase::ClosingDetected, old(self)@.1),
    {
        self.phase = Phase::ClosingDetected;
    }

    /// Whether the event loop should stop.
    pub fn is_closed(&self) -> (r: bool)
        ensures
            r == (self@.0 == Phase::ClosingDetected),
    {
        self.phase == Phase::ClosingDetected
    }

    /// Whether the peer ended the stream in an orderly way. Every closure
    /// that this exchange observes is orderly; failures end the fetch with
    /// an error instead.
    pub fn clean_closure(&self) -> (r: bool)
        ensures
            r == (self@.0 == Phase::ClosingDetected),
    {
        self.phase == Phase::ClosingDetected
    }

    /// The plaintext received so far.
    pub fn received(&self) -> (r: &[u8])
        ensures
            r@ == self@.1,
    {
        self.output.as_slice()
    }

    /// Decodes everything received into a reply.
    pub fn finish(self) -> (r: Result<Response, RequestError>)
        ensures
            match r {
                Ok(resp) => decode_spec(self@.1) == Some(resp@),
                Err(e) => decode_spec(self@.1) is None && e is DecodeError,
            },
    {
        match Response::from_raw(self.output.as_slice()) {
            Ok(resp) => Ok(resp),
            Err(e) => Err(RequestError::DecodeError(e)),
        }
    }
}

/// One fetch over a TLS session: the session and the exchange it drives.
pub struct GeminiClient {
    pub tls_conn: rustls::ClientConnection,
    pub exchange: Exchange,
}

impl GeminiClient {
    /// Starts a TLS session with `server_name` under `cfg`.
    pub fn new(server_name: rustls::ServerName, cfg: Arc<rustls::ClientConfig>) -> (r: Result<
        GeminiClient,
        RequestError,
    >)
        ensures
            r matches Ok(c) ==> c.exchange@ == (Phase::Active, Seq::<u8>::empty()),
            r matches Err(e) ==> e is TlsError,
    {
        match tls_connect(cfg, server_name) {
            Ok(tls_conn) => Ok(GeminiClient { tls_conn, exchange: Exchange::new() }),
            Err(e) => Err(RequestError::TlsError(e)),
        }
    }

    /// Hands the request line to the session, which sends it once the
    /// handshake allows.
    pub fn send_request(&mut self, line: &[u8]) -> (r: Result<(), RequestError>)
        ensures
            final(self).exchange@ == old(self).exchange@,
            r matches Err(e) ==> e is IoError,
    {
        match tls_write_plaintext(&mut self.tls_conn, line) {
            Ok(()) => Ok(()),
            Err(e) => Err(RequestError::IoError(e)),
        }
    }

    /// Takes the outcome of one read of ciphertext from the socket: a read
    /// that would block changes nothing; any other failure ends the fetch;
    /// otherwise see `after_read`.
    pub fn on_read(&mut self, read: Result<usize, std::io::Error>) -> (r: Result<(), RequestError>)
        ensures
            read matches Err(e) ==> final(self).exchange@ == old(self).exchange@ && (if would_block_of(
                e,
            ) {
                r is Ok
            } else {
                r == Err::<(), RequestError>(RequestError::IoError(e))
            }),
            read == Ok::<usize, std::io::Error>(0) ==> r is Ok && final(self).exchange@ == (
                Phase::ClosingDetected,
                old(self).exchange@.1,
            ),
            read matches Ok(n) && n > 0 ==> exists|data: Seq<u8>|
                final(self).exchange@.1 == old(self).exchange@.1 + data,
            r is Err ==> final(self).exchange@ == old(self).exchange@,
    {
        match read {
            Ok(n) => self.after_read(n),
            Err(e) => {
                if io_would_block(&e) {
                    Ok(())
                } else {
                    Err(RequestError::IoError(e))
                }
            },
        }
    }

    /// Takes the outcome of one read of ciphertext from the socket (`n`
    /// bytes, zero at end of file): at end of file the exchange ends;
    /// otherwise the session processes the new records (see `on_processed`).
    pub fn after_read(&mut self, n: usize) -> (r: Result<(), RequestError>)
        ensures
            n == 0 ==> r is Ok && final(self).exchange@ == (
                Phase::ClosingDetected,
                old(self).exchange@.1,
            ),
            n > 0 ==> exists|data: Seq<u8>|
                final(self).exchange@.1 == old(self).exchange@.1 + data,
            n > 0 && old(self).exchange@.0 == Phase::ClosingDetected ==> final(self).exchange@.0
                == Phase::ClosingDetected,
            r is Err ==> final(self).exchange@ == old(self).exchange@,
            r matches Err(e) ==> e is TlsError || e is IoError,
    {
        if n == 0 {
            self.exchange.on_eof();
            return Ok(());
        }
        let processed = tls_process_packets(&mut self.tls_conn);
        let r = self.on_processed(processed);
        proof {
            assert(old(self).exchange@.1 =~= old(self).exchange@.1 + Seq::<u8>::empty());
        }
        r
    }

    /// Takes the outcome of processing new records: a TLS failure ends the
    /// fetch with that error; otherwise the reported plaintext is drained and
    /// appended, and a close_notify from the peer ends the exchange.
    pub fn on_processed(&mut self, processed: Result<(usize, bool), rustls::Error>) -> (r: Result<
        (),
        RequestError,
    >)
        ensures
            processed matches Err(e) ==> r == Err::<(), RequestError>(RequestError::TlsError(e)),
            processed matches Ok((available, peer_closed)) ==> (r is Ok ==> exists|data: Seq<u8>|
                data.len() == available && final(self).exchange@ == (
                    if peer_closed {
                        Phase::ClosingDetected
                    } else {
                        old(self).exchange@.0
                    },
                    old(self).exchange@.1 + data,
                )),
            processed matches Ok((available, _)) ==> (available == 0 ==> r is Ok),
            processed matches Ok(_) ==> (r matches Err(e) ==> e is IoError),
            r is Err ==> final(self).exchange@ == old(self).exchange@,
    {
        match processed {
            Err(e) => Err(RequestError::TlsError(e)),
            Ok((available, peer_closed)) => {
                let mut data: Vec<u8> = Vec::new();
                if available > 0 {
                    match tls_read_plaintext(&mut self.tls_conn, available) {
                        Ok(d) => {
                            data = d;
                        },
                        Err(e) => {
                            return Err(RequestError::IoError(e));
                        },
                    }
                }
                self.exchange.on_plaintext(data.as_slice(), peer_closed);
                Ok(())
            },
        }
    }

    /// The interest matching what the session needs right now.
    pub fn event_set(&self) -> (r: Interest)
        ensures
            r == interest_spec(wants_read_of(self.tls_conn), wants_write_of(self.tls_conn)),
    {
        let rd = tls_wants_read(&self.tls_conn);
        let wr = tls_wants_write(&self.tls_conn);
        interest_for(rd, wr)
    }

    pub fn is_closed(&self) -> (r: bool)
        ensures
            r == (self.exchange@.0 == Phase::ClosingDetected),
    {
        self.exchange.is_closed()
    }

    /// Ends the fetch and decodes what was received.
    pub fn finish(self) -> (r: Result<Response, RequestError>)
        ensures
            match r {
                Ok(resp) => decode_spec(self.exchange@.1) == Some(resp@),
                Err(e) => decode_spec(self.exchange@.1) is None && e is DecodeError,
            },
    {
        self.exchange.finish()
    }
}

} // verus!
