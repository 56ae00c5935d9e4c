//! Replay-protected call envelopes: a fresh single-use nonce and a bounded
//! expiry for every outgoing call, the exact bytes that are signed and sent,
//! and the interpretation of the application channel's reply.

use vstd::prelude::*;
use vstd::bytes::spec_u64_to_le_bytes;
use crate::codec::PayloadValue;
use crate::codec::spec_decode_payload;
use crate::codec::decode_payload;
use crate::errors::Error;
use crate::errors::ErrorKind;
use crate::wire::spec_chunk;
use crate::wire::put_chunk;
use crate::wire::spec_take_chunk;
use crate::wire::take_chunk;
use crate::wire::lemma_take_chunk_after_put;
use crate::wire::put_u64;
use crate::wire::spec_take_u64;
use crate::wire::take_u64;
use crate::wire::lemma_take_u64_after_put;

verus! {

/// An envelope expires this many microseconds after its construction time:
/// a bounded window that limits replay exposure.
pub const EXPIRY_WINDOW_MICROS: u64 = 300_000_000;

/// The host's unit of application identity: a bundle component together
/// with the acting agent's public key.
#[derive(Debug, Clone, PartialEq, Eq)]
pub struct CellId {
    pub dna_hash: Vec<u8>,
    pub agent_key: Vec<u8>,
}

/// The mathematical contents of a `CellId`.
pub ghost struct CellIdView {
    pub dna_hash: Seq<u8>,
    pub agent_key: Seq<u8>,
}

impl View for CellId {
    type V = CellIdView;

    open spec fn view(&self) -> CellIdView {
        CellIdView { dna_hash: self.dna_hash@, agent_key: self.agent_key@ }
    }
}

/// A call envelope before it is signed: everything the signature covers.
#[derive(Debug)]
pub struct UnsignedEnvelope {
    pub cell_id: CellId,
    pub zome_name: Vec<u8>,
    pub fn_name: Vec<u8>,
    pub payload: Vec<u8>,
    pub provenance: Vec<u8>,
    pub nonce: Vec<u8>,
    pub expires_at: u64,
}

/// The mathematical contents of an `UnsignedEnvelope`.
pub ghost struct UnsignedEnvelopeView {
    pub cell_id: CellIdView,
    pub zome_name: Seq<u8>,
    pub fn_name: Seq<u8>,
    pub payload: Seq<u8>,
    pub provenance: Seq<u8>,
    pub nonce: Seq<u8>,
    pub expires_at: u64,
}

impl View for UnsignedEnvelope {
    type V = UnsignedEnvelopeView;

    open spec fn view(&self) -> UnsignedEnvelopeView {
        UnsignedEnvelopeView {
            cell_id: self.cell_id@,
            zome_name: self.zome_name@,
            fn_name: self.fn_name@,
            payload: self.payload@,
            provenance: self.provenance@,
            nonce: self.nonce@,
            expires_at: self.expires_at,
        }
    }
}

/// A signed, replay-protected call envelope.
#[derive(Debug)]
pub struct Envelope {
    pub call: UnsignedEnvelope,
    pub signature: Vec<u8>,
}

/// The mathematical contents of an `Envelope`.
pub ghost struct EnvelopeView {
    pub call: UnsignedEnvelopeView,
    pub signature: Seq<u8>,
}

impl View for Envelope {
    type V = EnvelopeView;

    open spec fn view(&self) -> EnvelopeView {
        EnvelopeView { call: self.call@, signature: self.signature@ }
    }
}

impl UnsignedEnvelopeView {
    /// Fits the wire format: every field fits a chunk and the nonce has its
    /// mandatory thirty-two bytes.
    pub open spec fn wf(self) -> bool {
        &&& self.cell_id.dna_hash.len() <= u32::MAX
        &&& self.cell_id.agent_key.len() <= u32::MAX
        &&& self.zome_name.len() <= u32::MAX
        &&& self.fn_name.len() <= u32::MAX
        &&& self.payload.len() <= u32::MAX
        &&& self.provenance.len() <= u32::MAX
        &&& self.nonce.len() == 32
    }
}

impl EnvelopeView {
    /// Fits the wire format.
    pub open spec fn wf(self) -> bool {
        self.call.wf() && self.signature.len() <= u32::MAX
    }
}

/// Whether `u` fits the wire format.
pub fn unsigned_wf(u: &UnsignedEnvelope) -> (r: bool)
    ensures
        r == u@.wf(),
{
    u.cell_id.dna_hash.len() as u64 <= u32::MAX as u64 && u.cell_id.agent_key.len() as u64
        <= u32::MAX as u64 && u.zome_name.len() as u64 <= u32::MAX as u64 && u.fn_name.len() as u64
        <= u32::MAX as u64 && u.payload.len() as u64 <= u32::MAX as u64 && u.provenance.len()
        as u64 <= u32::MAX as u64 && u.nonce.len() == 32
}

/// Whether `e` fits the wire format.
pub fn envelope_wf(e: &Envelope) -> (r: bool)
    ensures
        r == e@.wf(),
{
    unsigned_wf(&e.call) && e.signature.len() as u64 <= u32::MAX as u64
}

/// Relies on getrandom's `getrandom`: on success it fills the whole buffer
/// from the operating system's entropy source.  Which bytes come back
/// depends on that source alone, so nothing is stated of them but their
/// count.
#[verifier::external_body]
fn os_random_bytes_32() -> (r: Option<Vec<u8>>)
    ensures
        r matches Some(b) ==> b@.len() == 32,
{
    let mut buf = [0u8; 32];
    match getrandom::getrandom(&mut buf) {
        Ok(()) => Some(buf.to_vec()),
        Err(_) => None,
    }
}

/// Construct the unsigned envelope for one outgoing call.
///
/// The nonce is drawn fresh from the signer's entropy source for this one
/// envelope, and the expiry is strictly after the construction time
/// `now_micros` and exactly the fixed window past it, so an accepted
/// envelope can never be replayed after that window.  Fails with
/// `SigningFailed` only when the entropy source is unavailable.
pub fn make_envelope(
    cell_id: CellId,
    zome_name: Vec<u8>,
    fn_name: Vec<u8>,
    payload: Vec<u8>,
    provenance: Vec<u8>,
    now_micros: u64,
) -> (r: Result<UnsignedEnvelope, Error>)
    requires
        now_micros + EXPIRY_WINDOW_MICROS <= u64::MAX,
    ensures
        match r {
            Ok(u) => {
                &&& u.cell_id@ == cell_id@
                &&& u.zome_name@ == zome_name@
                &&& u.fn_name@ == fn_name@
                &&& u.payload@ == payload@
                &&& u.provenance@ == provenance@
                &&& u.nonce@.len() == 32
                &&& u.expires_at == now_micros + EXPIRY_WINDOW_MICROS
                &&& now_micros < u.expires_at <= now_micros + EXPIRY_WINDOW_MICROS
            },
            Err(e) => e.kind == ErrorKind::SigningFailed,
        },
{
    let nonce = match os_random_bytes_32() {
        Some(n) => n,
        None => {
            return Err(Error::new(ErrorKind::SigningFailed));
        },
    };
    Ok(
        UnsignedEnvelope {
            cell_id,
            zome_name,
            fn_name,
            payload,
            provenance,
            nonce,
            expires_at: now_micros + EXPIRY_WINDOW_MICROS,
        },
    )
}

/// The exact bytes the signature covers: every field of the unsigned
/// envelope, length-prefixed, with the expiry last.
pub open spec fn spec_signing_bytes(u: UnsignedEnvelopeView) -> Seq<u8> {
    spec_chunk(u.cell_id.dna_hash) + spec_chunk(u.cell_id.agent_key) + spec_chunk(u.zome_name)
        + spec_chunk(u.fn_name) + spec_chunk(u.payload) + spec_chunk(u.provenance) + spec_chunk(
        u.nonce,
    ) + spec_u64_to_le_bytes(u.expires_at)
}

/// Produce the bytes the keystore must sign for this envelope.
pub fn signing_bytes(u: &UnsignedEnvelope) -> (r: Vec<u8>)
    requires
        u@.wf(),
    ensures
        r@ == spec_signing_bytes(u@),
{
    let mut out: Vec<u8> = Vec::new();
    put_chunk(&mut out, &u.cell_id.dna_hash);
    put_chunk(&mut out, &u.cell_id.agent_key);
    put_chunk(&mut out, &u.zome_name);
    put_chunk(&mut out, &u.fn_name);
    put_chunk(&mut out, &u.payload);
    put_chunk(&mut out, &u.provenance);
    put_chunk(&mut out, &u.nonce);
    put_u64(&mut out, u.expires_at);
    proof {
        assert(out@ =~= spec_signing_bytes(u@));
    }
    out
}

/// Attach the keystore's signature to the call it covers, or surface the
/// keystore's refusal as `SigningFailed` carrying its reason.
pub fn complete_sign(call: UnsignedEnvelope, sig_result: Result<Vec<u8>, String>) -> (r: Result<
    Envelope,
    Error,
>)
    ensures
        match r {
            Ok(e) => {
                &&& e.call@ == call@
                &&& sig_result matches Ok(s) && e.signature@ == s@
            },
            Err(err) => {
                &&& err.kind == ErrorKind::SigningFailed
                &&& sig_result matches Err(m) && err.detail == Some(m)
            },
        },
{
    match sig_result {
        Ok(signature) => Ok(Envelope { call, signature }),
        Err(reason) => Err(Error::with_detail(ErrorKind::SigningFailed, reason)),
    }
}

/// The wire form of a signed envelope: the signed bytes, then the
/// signature as one more chunk.
pub open spec fn spec_encode_envelope(e: EnvelopeView) -> Seq<u8> {
    spec_signing_bytes(e.call) + spec_chunk(e.signature)
}

/// Encode a signed envelope for the application channel.
pub fn encode_envelope(e: &Envelope) -> (r: Vec<u8>)
    requires
        e@.wf(),
    ensures
        r@ == spec_encode_envelope(e@),
{
    let mut out = signing_bytes(&e.call);
    put_chunk(&mut out, &e.signature);
    out
}

/// What decoding envelope bytes yields; the whole buffer must be consumed.
pub open spec fn spec_decode_envelope(b: Seq<u8>) -> Option<EnvelopeView> {
    match spec_take_chunk(b, 0) {
        None => None,
        Some((dna, p1)) => match spec_take_chunk(b, p1) {
            None => None,
            Some((agent, p2)) => match spec_take_chunk(b, p2) {
                None => None,
                Some((zome, p3)) => match spec_take_chunk(b, p3) {
                    None => None,
                    Some((fnm, p4)) => match spec_take_chunk(b, p4) {
                        None => None,
                        Some((payload, p5)) => match spec_take_chunk(b, p5) {
                            None => None,
                            Some((prov, p6)) => match spec_take_chunk(b, p6) {
                                None => None,
                                Some((nonce, p7)) => match spec_take_u64(b, p7) {
                                    None => None,
                                    Some((expires_at, p8)) => match spec_take_chunk(b, p8) {
                                        None => None,
                                        Some((sig, p9)) => if p9 == b.len() {
                                            Some(
                                                EnvelopeView {
                                                    call: UnsignedEnvelopeView {
                                                        cell_id: CellIdView {
                                                            dna_hash: dna,
                                                            agent_key: agent,
                                                        },
                                                        zome_name: zome,
                                                        fn_name: fnm,
                                                        payload,
                                                        provenance: prov,
                                                        nonce,
                                                        expires_at,
                                                    },
                                                    signature: sig,
                                                },
                                            )
                                        } else {
                                            None
                                        },
                                    },
                                },
                            },
                        },
                    },
                },
            },
        },
    }
}

/// Decode envelope bytes; refuses exactly what `spec_decode_envelope`
/// refuses.
pub fn decode_envelope(b: &Vec<u8>) -> (r: Option<Envelope>)
    ensures
        match r {
            Some(e) => spec_decode_envelope(b@) == Some(e@),
            None => spec_decode_envelope(b@) is None,
        },
{
    let (dna, p1) = match take_chunk(b, 0) {
        None => {
            return None;
        },
        Some(dp) => dp,
    };
    let (agent, p2) = match take_chunk(b, p1) {
        None => {
            return None;
        },
        Some(dp) => dp,
    };
    let (zome, p3) = match take_chunk(b, p2) {
        None => {
            return None;
        },
        Some(dp) => dp,
    };
    let (fnm, p4) = match take_chunk(b, p3) {
        None => {
            return None;
        },
        Some(dp) => dp,
    };
    let (payload, p5) = match take_chunk(b, p4) {
        None => {
            return None;
        },
        Some(dp) => dp,
    };
    let (prov, p6) = match take_chunk(b, p5) {
        None => {
            return None;
        },
        Some(dp) => dp,
    };
    let (nonce, p7) = match take_chunk(b, p6) {
        None => {
            return None;
        },
        Some(dp) => dp,
    };
    let (expires_at, p8) = match take_u64(b, p7) {
        None => {
            return None;
        },
        Some(xp) => xp,
    };
    let (sig, p9) = match take_chunk(b, p8) {
        None => {
            return None;
        },
        Some(dp) => dp,
    };
    if p9 != b.len() {
        return None;
    }
    Some(
        Envelope {
            call: UnsignedEnvelope {
                cell_id: CellId { dna_hash: dna, agent_key: agent },
                zome_name: zome,
                fn_name: fnm,
                payload,
                provenance: prov,
                nonce,
                expires_at,
            },
            signature: sig,
        },
    )
}

/// A signed envelope decodes back from its own wire bytes: nothing of the
/// call, the nonce, the expiry, or the signature is lost in transit.
#[verifier::rlimit(60)]
pub proof fn lemma_envelope_round_trip(e: EnvelopeView)
    requires
        e.wf(),
    ensures
        spec_decode_envelope(spec_encode_envelope(e)) == Some(e),
{
    vstd::bytes::lemma_auto_spec_u32_to_from_le_bytes();
    vstd::bytes::lemma_auto_spec_u64_to_from_le_bytes();
    let b = spec_encode_envelope(e);
    let u = e.call;
    let c1 = spec_chunk(u.cell_id.dna_hash);
    let c2 = spec_chunk(u.cell_id.agent_key);
    let c3 = spec_chunk(u.zome_name);
    let c4 = spec_chunk(u.fn_name);
    let c5 = spec_chunk(u.payload);
    let c6 = spec_chunk(u.provenance);
    let c7 = spec_chunk(u.nonce);
    let c8 = spec_u64_to_le_bytes(u.expires_at);
    let c9 = spec_chunk(e.signature);
    assert(b =~= c1 + c2 + c3 + c4 + c5 + c6 + c7 + c8 + c9);
    let p1 = c1.len() as int;
    let p2 = p1 + c2.len();
    let p3 = p2 + c3.len();
    let p4 = p3 + c4.len();
    let p5 = p4 + c5.len();
    let p6 = p5 + c6.len();
    let p7 = p6 + c7.len();
    let p8 = p7 + c8.len();
    let p9 = p8 + c9.len();
    assert(b.len() == p9);
    assert(b.subrange(0, p1) =~= c1);
    assert(b.subrange(p1, p2) =~= c2);
    assert(b.subrange(p2, p3) =~= c3);
    assert(b.subrange(p3, p4) =~= c4);
    assert(b.subrange(p4, p5) =~= c5);
    assert(b.subrange(p5, p6) =~= c6);
    assert(b.subrange(p6, p7) =~= c7);
    assert(b.subrange(p7, p8) =~= c8);
    assert(b.subrange(p8, p9) =~= c9);
    lemma_take_chunk_after_put(b, 0, u.cell_id.dna_hash);
    lemma_take_chunk_after_put(b, p1, u.cell_id.agent_key);
    lemma_take_chunk_after_put(b, p2, u.zome_name);
    lemma_take_chunk_after_put(b, p3, u.fn_name);
    lemma_take_chunk_after_put(b, p4, u.payload);
    lemma_take_chunk_after_put(b, p5, u.provenance);
    lemma_take_chunk_after_put(b, p6, u.nonce);
    lemma_take_u64_after_put(b, p7, u.expires_at);
    lemma_take_chunk_after_put(b, p8, e.signature);
}

/// Interpret the application channel's reply to one signed call.
///
/// A host rejection surfaces as `CallRejected` carrying the host's reason,
/// undecoded; response bytes that do not have the expected shape fail with
/// `DecodeError`; anything else is the decoded payload value.
pub fn complete_invoke(response: Result<Vec<u8>, String>) -> (r: Result<PayloadValue, Error>)
    ensures
        match response {
            Err(reason) => r matches Err(e) && e.kind == ErrorKind::CallRejected && e.detail
                == Some(reason),
            Ok(bytes) => match spec_decode_payload(bytes@) {
                Some(v) => r matches Ok(p) && p@ == v,
                None => r matches Err(e) && e.kind == ErrorKind::DecodeError && e.detail is None,
            },
        },
{
    match response {
        Err(reason) => Err(Error::with_detail(ErrorKind::CallRejected, reason)),
        Ok(bytes) => match decode_payload(&bytes) {
            Some(v) => Ok(v),
            None => Err(Error::new(ErrorKind::DecodeError)),
        },
    }
}

} // verus!
