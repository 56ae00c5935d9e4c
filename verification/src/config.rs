//! The persisted node configuration: its data model, the human-readable
//! document it is stored as, and the load-or-init decision.
//!
//! The document is the only durable source of truth for a storage root.  It
//! is written once when absent and parsed verbatim on every later run, so the
//! admin port chosen on first run is never re-randomized.  Rendering and
//! parsing are exact inverses on well-formed configurations.

use vstd::prelude::*;
use crate::errors::Error;
use crate::errors::ErrorKind;
use crate::ports::PortRange;
use crate::ports::allocate_port;
use crate::wire::spec_decimal;
use crate::wire::spec_parse_decimal_u16;
use crate::wire::render_decimal_u16;
use crate::wire::parse_decimal_u16;
use crate::wire::lemma_decimal_round_trip;
use crate::wire::lemma_value_of_decimal;
use crate::wire::append_bytes;
use crate::wire::bytes_eq;

verus! {

/// How the node's keystore runs: inside the host process or as an external
/// service.
#[derive(Clone, Copy, Debug, PartialEq, Eq, Structural)]
pub enum KeystoreMode {
    InProcess,
    External,
}

/// Network bootstrap and relay endpoints.
#[derive(Clone, Debug, PartialEq, Eq)]
pub struct NetworkConfig {
    pub bootstrap_url: Vec<u8>,
    pub relay_url: Vec<u8>,
}

/// The node configuration: storage paths, keystore mode, administrative
/// port, and network endpoints.
#[derive(Clone, Debug, PartialEq, Eq)]
pub struct NodeConfig {
    pub storage_root: Vec<u8>,
    pub keystore_mode: KeystoreMode,
    pub admin_port: u16,
    pub network: NetworkConfig,
}

/// The mathematical contents of a `NetworkConfig`.
pub ghost struct NetworkConfigView {
    pub bootstrap_url: Seq<u8>,
    pub relay_url: Seq<u8>,
}

/// The mathematical contents of a `NodeConfig`.
pub ghost struct NodeConfigView {
    pub storage_root: Seq<u8>,
    pub keystore_mode: KeystoreMode,
    pub admin_port: u16,
    pub network: NetworkConfigView,
}

impl View for NetworkConfig {
    type V = NetworkConfigView;

    open spec fn view(&self) -> NetworkConfigView {
        NetworkConfigView { bootstrap_url: self.bootstrap_url@, relay_url: self.relay_url@ }
    }
}

impl View for NodeConfig {
    type V = NodeConfigView;

    open spec fn view(&self) -> NodeConfigView {
        NodeConfigView {
            storage_root: self.storage_root@,
            keystore_mode: self.keystore_mode,
            admin_port: self.admin_port,
            network: self.network@,
        }
    }
}

/// No byte of `s` is a line break.
pub open spec fn spec_line_free(s: Seq<u8>) -> bool {
    forall|i: int| 0 <= i < s.len() ==> #[trigger] s[i] != 10
}

impl NodeConfigView {
    /// Well-formed: every free-text field fits on one line of the document.
    pub open spec fn wf(self) -> bool {
        &&& spec_line_free(self.storage_root)
        &&& spec_line_free(self.network.bootstrap_url)
        &&& spec_line_free(self.network.relay_url)
    }
}

impl NodeConfig {
    /// Well-formed: every free-text field fits on one line of the document.
    pub open spec fn wf(self) -> bool {
        self@.wf()
    }
}

/// The byte string `storage_root`.
pub open spec fn spec_key_storage_root() -> Seq<u8> {
    seq![115, 116, 111, 114, 97, 103, 101, 95, 114, 111, 111, 116]
}

fn key_storage_root() -> (r: Vec<u8>)
    ensures
        r@ == spec_key_storage_root(),
{
    let mut v: Vec<u8> = Vec::new();
    v.push(115);
    v.push(116);
    v.push(111);
    v.push(114);
    v.push(97);
    v.push(103);
    v.push(101);
    v.push(95);
    v.push(114);
    v.push(111);
    v.push(111);
    v.push(116);
    proof {
        assert(v@ =~= spec_key_storage_root());
    }
    v
}

/// The byte string `keystore`.
pub open spec fn spec_key_keystore() -> Seq<u8> {
    seq![107, 101, 121, 115, 116, 111, 114, 101]
}

fn key_keystore() -> (r: Vec<u8>)
    ensures
        r@ == spec_key_keystore(),
{
    let mut v: Vec<u8> = Vec::new();
    v.push(107);
    v.push(101);
    v.push(121);
    v.push(115);
    v.push(116);
    v.push(111);
    v.push(114);
    v.push(101);
    proof {
        assert(v@ =~= spec_key_keystore());
    }
    v
}

/// The byte string `admin_port`.
pub open spec fn spec_key_admin_port() -> Seq<u8> {
    seq![97, 100, 109, 105, 110, 95, 112, 111, 114, 116]
}

fn key_admin_port() -> (r: Vec<u8>)
    ensures
        r@ == spec_key_admin_port(),
{
    let mut v: Vec<u8> = Vec::new();
    v.push(97);
    v.push(100);
    v.push(109);
    v.push(105);
    v.push(110);
    v.push(95);
    v.push(112);
    v.push(111);
    v.push(114);
    v.push(116);
    proof {
        assert(v@ =~= spec_key_admin_port());
    }
    v
}

/// The byte string `bootstrap_url`.
pub open spec fn spec_key_bootstrap_url() -> Seq<u8> {
    seq![98, 111, 111, 116, 115, 116, 114, 97, 112, 95, 117, 114, 108]
}

fn key_bootstrap_url() -> (r: Vec<u8>)
    ensures
        r@ == spec_key_bootstrap_url(),
{
    let mut v: Vec<u8> = Vec::new();
    v.push(98);
    v.push(111);
    v.push(111);
    v.push(116);
    v.push(115);
    v.push(116);
    v.push(114);
    v.push(97);
    v.push(112);
    v.push(95);
    v.push(117);
    v.push(114);
    v.push(108);
    proof {
        assert(v@ =~= spec_key_bootstrap_url());
    }
    v
}

/// The byte string `relay_url`.
pub open spec fn spec_key_relay_url() -> Seq<u8> {
    seq![114, 101, 108, 97, 121, 95, 117, 114, 108]
}

fn key_relay_url() -> (r: Vec<u8>)
    ensures
        r@ == spec_key_relay_url(),
{
    let mut v: Vec<u8> = Vec::new();
    v.push(114);
    v.push(101);
    v.push(108);
    v.push(97);
    v.push(121);
    v.push(95);
    v.push(117);
    v.push(114);
    v.push(108);
    proof {
        assert(v@ =~= spec_key_relay_url());
    }
    v
}

/// The byte string `in_process`.
pub open spec fn spec_val_in_process() -> Seq<u8> {
    seq![105, 110, 95, 112, 114, 111, 99, 101, 115, 115]
}

fn val_in_process() -> (r: Vec<u8>)
    ensures
        r@ == spec_val_in_process(),
{
    let mut v: Vec<u8> = Vec::new();
    v.push(105);
    v.push(110);
    v.push(95);
    v.push(112);
    v.push(114);
    v.push(111);
    v.push(99);
    v.push(101);
    v.push(115);
    v.push(115);
    proof {
        assert(v@ =~= spec_val_in_process());
    }
    v
}

/// The byte string `external`.
pub open spec fn spec_val_external() -> Seq<u8> {
    seq![101, 120, 116, 101, 114, 110, 97, 108]
}

fn val_external() -> (r: Vec<u8>)
    ensures
        r@ == spec_val_external(),
{
    let mut v: Vec<u8> = Vec::new();
    v.push(101);
    v.push(120);
    v.push(116);
    v.push(101);
    v.push(114);
    v.push(110);
    v.push(97);
    v.push(108);
    proof {
        assert(v@ =~= spec_val_external());
    }
    v
}

/// The byte string `https://bootstrap.holo.host`.
pub open spec fn spec_default_bootstrap_url() -> Seq<u8> {
    seq![104, 116, 116, 112, 115, 58, 47, 47, 98, 111, 111, 116, 115, 116, 114, 97, 112, 46, 104, 111, 108, 111, 46, 104, 111, 115, 116]
}

fn default_bootstrap_url() -> (r: Vec<u8>)
    ensures
        r@ == spec_default_bootstrap_url(),
{
    let mut v: Vec<u8> = Vec::new();
    v.push(104);
    v.push(116);
    v.push(116);
    v.push(112);
    v.push(115);
    v.push(58);
    v.push(47);
    v.push(47);
    v.push(98);
    v.push(111);
    v.push(111);
    v.push(116);
    v.push(115);
    v.push(116);
    v.push(114);
    v.push(97);
    v.push(112);
    v.push(46);
    v.push(104);
    v.push(111);
    v.push(108);
    v.push(111);
    v.push(46);
    v.push(104);
    v.push(111);
    v.push(115);
    v.push(116);
    proof {
        assert(v@ =~= spec_default_bootstrap_url());
    }
    v
}

/// The byte string `wss://signal.holo.host`.
pub open spec fn spec_default_relay_url() -> Seq<u8> {
    seq![119, 115, 115, 58, 47, 47, 115, 105, 103, 110, 97, 108, 46, 104, 111, 108, 111, 46, 104, 111, 115, 116]
}

fn default_relay_url() -> (r: Vec<u8>)
    ensures
        r@ == spec_default_relay_url(),
{
    let mut v: Vec<u8> = Vec::new();
    v.push(119);
    v.push(115);
    v.push(115);
    v.push(58);
    v.push(47);
    v.push(47);
    v.push(115);
    v.push(105);
    v.push(103);
    v.push(110);
    v.push(97);
    v.push(108);
    v.push(46);
    v.push(104);
    v.push(111);
    v.push(108);
    v.push(111);
    v.push(46);
    v.push(104);
    v.push(111);
    v.push(115);
    v.push(116);
    proof {
        assert(v@ =~= spec_default_relay_url());
    }
    v
}

/// One document line: `key: value` followed by a line break.
pub open spec fn spec_line(key: Seq<u8>, value: Seq<u8>) -> Seq<u8> {
    key + seq![58u8, 32u8] + value + seq![10u8]
}

/// The token a keystore mode is written as.
pub open spec fn spec_keystore_token(m: KeystoreMode) -> Seq<u8> {
    match m {
        KeystoreMode::InProcess => spec_val_in_process(),
        KeystoreMode::External => spec_val_external(),
    }
}

/// The document a configuration is persisted as: five `key: value` lines in
/// fixed order.
pub open spec fn spec_render_config(c: NodeConfigView) -> Seq<u8> {
    spec_line(spec_key_storage_root(), c.storage_root)
        + spec_line(spec_key_keystore(), spec_keystore_token(c.keystore_mode))
        + spec_line(spec_key_admin_port(), spec_decimal(c.admin_port as nat))
        + spec_line(spec_key_bootstrap_url(), c.network.bootstrap_url)
        + spec_line(spec_key_relay_url(), c.network.relay_url)
}

/// The position of the first `b` at or after `from`, or -1 if there is none.
pub open spec fn spec_find(d: Seq<u8>, from: int, b: u8) -> int
    decreases d.len() - from,
{
    if from < 0 || from >= d.len() {
        -1
    } else if d[from] == b {
        from
    } else {
        spec_find(d, from + 1, b)
    }
}

/// Find the first `b` at or after `pos`.
pub fn find_byte(d: &Vec<u8>, pos: usize, b: u8) -> (r: Option<usize>)
    requires
        pos <= d@.len(),
    ensures
        match r {
            Some(e) => spec_find(d@, pos as int, b) == e as int && pos <= e < d@.len(),
            None => spec_find(d@, pos as int, b) == -1,
        },
{
    let mut i: usize = pos;
    while i < d.len()
        invariant
            pos <= i <= d@.len(),
            spec_find(d@, pos as int, b) == spec_find(d@, i as int, b),
        decreases d@.len() - i,
    {
        if d[i] == b {
            return Some(i);
        }
        i = i + 1;
    }
    None
}

/// If `content` (which holds no line break) sits at `pos` and a line break
/// follows it, the first line break at or after `pos` is right there.
proof fn lemma_find_after_content(d: Seq<u8>, pos: int, content: Seq<u8>)
    requires
        spec_line_free(content),
        0 <= pos,
        pos + content.len() < d.len(),
        d.subrange(pos, pos + content.len()) == content,
        d[pos + content.len()] == 10,
    ensures
        spec_find(d, pos, 10) == pos + content.len(),
    decreases content.len(),
{
    if content.len() == 0 {
        assert(d[pos] == 10);
    } else {
        assert(d[pos] == content[0]);
        assert(content[0] != 10);
        let rest = content.subrange(1, content.len() as int);
        assert(spec_line_free(rest));
        assert(d.subrange(pos + 1, pos + 1 + rest.len()) =~= rest);
        lemma_find_after_content(d, pos + 1, rest);
    }
}

/// Parse one `key: value` line at `pos`: the value and the position just
/// after the line break, or `None` if the line is missing or keyed
/// otherwise.
pub open spec fn spec_parse_line(d: Seq<u8>, pos: int, key: Seq<u8>) -> Option<(Seq<u8>, int)>
    recommends
        0 <= pos,
{
    let e = spec_find(d, pos, 10);
    if e < 0 {
        None
    } else {
        let content = d.subrange(pos, e);
        if content.len() >= key.len() + 2 && content.subrange(0, key.len() as int) == key
            && content[key.len() as int] == 58 && content[key.len() as int + 1] == 32 {
            Some((content.subrange(key.len() as int + 2, content.len() as int), e + 1))
        } else {
            None
        }
    }
}

/// What parsing a configuration document yields: five lines in fixed order,
/// a known keystore token, a decimal port, and nothing after the last line.
pub open spec fn spec_parse_config(d: Seq<u8>) -> Option<NodeConfigView> {
    match spec_parse_line(d, 0, spec_key_storage_root()) {
        None => None,
        Some((root, p1)) => match spec_parse_line(d, p1, spec_key_keystore()) {
            None => None,
            Some((ks, p2)) => match spec_parse_line(d, p2, spec_key_admin_port()) {
                None => None,
                Some((port_digits, p3)) => match spec_parse_line(
                    d,
                    p3,
                    spec_key_bootstrap_url(),
                ) {
                    None => None,
                    Some((boot, p4)) => match spec_parse_line(d, p4, spec_key_relay_url()) {
                        None => None,
                        Some((relay, p5)) => {
                            if p5 != d.len() {
                                None
                            } else if ks == spec_val_in_process() || ks == spec_val_external() {
                                let mode = if ks == spec_val_in_process() {
                                    KeystoreMode::InProcess
                                } else {
                                    KeystoreMode::External
                                };
                                match spec_parse_decimal_u16(port_digits) {
                                    None => None,
                                    Some(port) => Some(
                                        NodeConfigView {
                                            storage_root: root,
                                            keystore_mode: mode,
                                            admin_port: port,
                                            network: NetworkConfigView {
                                                bootstrap_url: boot,
                                                relay_url: relay,
                                            },
                                        },
                                    ),
                                }
                            } else {
                                None
                            }
                        },
                    },
                },
            },
        },
    }
}

/// Parse one `key: value` line of `d` at `pos`.
fn parse_line(d: &Vec<u8>, pos: usize, key: &Vec<u8>) -> (r: Option<(Vec<u8>, usize)>)
    requires
        pos <= d@.len(),
    ensures
        match r {
            Some(vp) => spec_parse_line(d@, pos as int, key@) == Some((vp.0@, vp.1 as int))
                && pos < vp.1 <= d@.len(),
            None => spec_parse_line(d@, pos as int, key@) is None,
        },
{
    let e = match find_byte(d, pos, 10) {
        None => {
            return None;
        },
        Some(e) => e,
    };
    let ghost content = d@.subrange(pos as int, e as int);
    let dlen = d.len();
    let clen = e - pos;
    let klen = key.len();
    if clen < klen || clen - klen < 2 {
        return None;
    }
    let next: usize = e + 1;
    let mut j: usize = 0;
    while j < klen
        invariant
            j <= klen,
            klen == key@.len(),
            pos + klen + 2 <= e < d@.len(),
            spec_find(d@, pos as int, 10) == e as int,
            forall|t: int| 0 <= t < j ==> d@[pos + t] == key@[t],
        decreases klen - j,
    {
        if d[pos + j] != key[j] {
            proof {
                let c = d@.subrange(pos as int, e as int);
                assert(c.subrange(0, klen as int)[j as int] == d@[pos + j]);
                assert(c.subrange(0, klen as int) != key@);
            }
            return None;
        }
        j = j + 1;
    }
    proof {
        assert(content.subrange(0, klen as int) =~= key@);
    }
    if d[pos + klen] != 58 {
        proof {
            assert(content[klen as int] == d@[pos + klen]);
        }
        return None;
    }
    if d[pos + klen + 1] != 32 {
        proof {
            assert(content[klen as int + 1] == d@[pos + klen + 1]);
        }
        return None;
    }
    let value = vstd::slice::slice_to_vec(
        vstd::slice::slice_subrange(d.as_slice(), pos + klen + 2, e),
    );
    proof {
        assert(content[klen as int] == d@[pos + klen]);
        assert(content[klen as int + 1] == d@[pos + klen + 1]);
        assert(value@ =~= content.subrange(klen + 2, content.len() as int));
    }
    Some((value, next))
}

/// Parse a configuration document; refuses exactly what `spec_parse_config`
/// refuses.
pub fn parse_config(d: &Vec<u8>) -> (r: Option<NodeConfig>)
    ensures
        match r {
            Some(c) => spec_parse_config(d@) == Some(c@),
            None => spec_parse_config(d@) is None,
        },
{
    let k1 = key_storage_root();
    let (root, p1) = match parse_line(d, 0, &k1) {
        None => {
            return None;
        },
        Some(vp) => vp,
    };
    let k2 = key_keystore();
    let (ks, p2) = match parse_line(d, p1, &k2) {
        None => {
            return None;
        },
        Some(vp) => vp,
    };
    let k3 = key_admin_port();
    let (port_digits, p3) = match parse_line(d, p2, &k3) {
        None => {
            return None;
        },
        Some(vp) => vp,
    };
    let k4 = key_bootstrap_url();
    let (boot, p4) = match parse_line(d, p3, &k4) {
        None => {
            return None;
        },
        Some(vp) => vp,
    };
    let k5 = key_relay_url();
    let (relay, p5) = match parse_line(d, p4, &k5) {
        None => {
            return None;
        },
        Some(vp) => vp,
    };
    if p5 != d.len() {
        return None;
    }
    let in_proc = val_in_process();
    let ext = val_external();
    let keystore_mode = if bytes_eq(&ks, &in_proc) {
        KeystoreMode::InProcess
    } else if bytes_eq(&ks, &ext) {
        KeystoreMode::External
    } else {
        return None;
    };
    let admin_port = match parse_decimal_u16(&port_digits) {
        None => {
            return None;
        },
        Some(p) => p,
    };
    Some(
        NodeConfig {
            storage_root: root,
            keystore_mode,
            admin_port,
            network: NetworkConfig { bootstrap_url: boot, relay_url: relay },
        },
    )
}

/// Append one `key: value` line to `out`.
fn push_line(out: &mut Vec<u8>, key: &Vec<u8>, value: &Vec<u8>)
    ensures
        final(out)@ == old(out)@ + spec_line(key@, value@),
{
    append_bytes(out, key.as_slice());
    out.push(58);
    out.push(32);
    append_bytes(out, value.as_slice());
    out.push(10);
    proof {
        assert(out@ =~= old(out)@ + spec_line(key@, value@));
    }
}

/// Render a configuration as its document.
pub fn render_config(c: &NodeConfig) -> (r: Vec<u8>)
    ensures
        r@ == spec_render_config(c@),
{
    let mut out: Vec<u8> = Vec::new();
    let k1 = key_storage_root();
    push_line(&mut out, &k1, &c.storage_root);
    let k2 = key_keystore();
    let tok = match c.keystore_mode {
        KeystoreMode::InProcess => val_in_process(),
        KeystoreMode::External => val_external(),
    };
    push_line(&mut out, &k2, &tok);
    let k3 = key_admin_port();
    let digits = render_decimal_u16(c.admin_port);
    push_line(&mut out, &k3, &digits);
    let k4 = key_bootstrap_url();
    push_line(&mut out, &k4, &c.network.bootstrap_url);
    let k5 = key_relay_url();
    push_line(&mut out, &k5, &c.network.relay_url);
    proof {
        assert(out@ =~= spec_render_config(c@));
    }
    out
}

/// Parsing one rendered line at its position yields its value and the
/// position just after it.
proof fn lemma_parse_line_at(d: Seq<u8>, pos: int, key: Seq<u8>, value: Seq<u8>)
    requires
        spec_line_free(key),
        spec_line_free(value),
        0 <= pos,
        pos + spec_line(key, value).len() <= d.len(),
        d.subrange(pos, pos + spec_line(key, value).len()) == spec_line(key, value),
    ensures
        spec_parse_line(d, pos, key) == Some((value, pos + spec_line(key, value).len())),
{
    let line = spec_line(key, value);
    let content = key + seq![58u8, 32u8] + value;
    assert(line =~= content + seq![10u8]);
    assert(spec_line_free(content)) by {
        assert forall|i: int| 0 <= i < content.len() implies #[trigger] content[i] != 10 by {
            if i < key.len() {
                assert(content[i] == key[i]);
            } else if i < key.len() + 2 {
            } else {
                assert(content[i] == value[i - key.len() - 2]);
            }
        }
    }
    assert(d.subrange(pos, pos + content.len()) =~= content);
    assert(d[pos + content.len()] == line[content.len() as int]);
    lemma_find_after_content(d, pos, content);
    let e = spec_find(d, pos, 10);
    let c2 = d.subrange(pos, e);
    assert(c2 =~= content);
    assert(c2.subrange(0, key.len() as int) =~= key);
    assert(c2[key.len() as int] == 58);
    assert(c2[key.len() as int + 1] == 32);
    assert(c2.subrange(key.len() as int + 2, c2.len() as int) =~= value);
}

/// The rendered document parses back to the very configuration it was
/// rendered from: loading after initializing is the identity, so a second
/// `load_or_init` on the same storage root returns a byte-identical document
/// and an equal configuration.
#[verifier::rlimit(60)]
pub proof fn lemma_config_round_trip(c: NodeConfigView)
    requires
        c.wf(),
    ensures
        spec_parse_config(spec_render_config(c)) == Some(c),
{
    let d = spec_render_config(c);
    let tok = spec_keystore_token(c.keystore_mode);
    let digits = spec_decimal(c.admin_port as nat);
    let l1 = spec_line(spec_key_storage_root(), c.storage_root);
    let l2 = spec_line(spec_key_keystore(), tok);
    let l3 = spec_line(spec_key_admin_port(), digits);
    let l4 = spec_line(spec_key_bootstrap_url(), c.network.bootstrap_url);
    let l5 = spec_line(spec_key_relay_url(), c.network.relay_url);
    lemma_value_of_decimal(c.admin_port as nat);
    assert(spec_line_free(digits));
    assert(spec_line_free(tok));
    let p1 = l1.len() as int;
    let p2 = p1 + l2.len();
    let p3 = p2 + l3.len();
    let p4 = p3 + l4.len();
    let p5 = p4 + l5.len();
    assert(d.len() == p5);
    assert(d.subrange(0, p1) =~= l1);
    assert(d.subrange(p1, p2) =~= l2);
    assert(d.subrange(p2, p3) =~= l3);
    assert(d.subrange(p3, p4) =~= l4);
    assert(d.subrange(p4, p5) =~= l5);
    lemma_parse_line_at(d, 0, spec_key_storage_root(), c.storage_root);
    lemma_parse_line_at(d, p1, spec_key_keystore(), tok);
    lemma_parse_line_at(d, p2, spec_key_admin_port(), digits);
    lemma_parse_line_at(d, p3, spec_key_bootstrap_url(), c.network.bootstrap_url);
    lemma_parse_line_at(d, p4, spec_key_relay_url(), c.network.relay_url);
    lemma_decimal_round_trip(c.admin_port);
    if c.keystore_mode == KeystoreMode::External {
        assert(tok != spec_val_in_process());
    }
}

/// The network endpoints chosen on first run.
pub open spec fn spec_default_network() -> NetworkConfigView {
    NetworkConfigView {
        bootstrap_url: spec_default_bootstrap_url(),
        relay_url: spec_default_relay_url(),
    }
}

/// The configuration synthesized on first run for a storage root and a
/// chosen admin port.
pub open spec fn spec_fresh_config(storage_root: Seq<u8>, admin_port: u16) -> NodeConfigView {
    NodeConfigView {
        storage_root,
        keystore_mode: KeystoreMode::InProcess,
        admin_port,
        network: spec_default_network(),
    }
}

/// Load the configuration of a storage root, or initialize it.
///
/// `existing` holds the bytes of the configuration document if one is
/// already persisted under the storage root.  When present it is the only
/// source of truth: it is parsed and returned together with its unchanged
/// bytes, or refused as `ConfigCorrupt`.  When absent, a fresh configuration
/// is synthesized with a free admin port from `admin_range` and the default
/// network endpoints, and returned together with the document the caller
/// must persist; an exhausted port range fails with `ResourceExhausted` and
/// nothing to persist.
pub fn load_or_init(
    existing: Option<Vec<u8>>,
    storage_root: Vec<u8>,
    admin_range: PortRange,
) -> (r: Result<(NodeConfig, Vec<u8>), Error>)
    requires
        spec_line_free(storage_root@),
    ensures
        match existing {
            Some(doc) => match spec_parse_config(doc@) {
                Some(cv) => r matches Ok(p) && p.0@ == cv && p.1@ == doc@,
                None => r matches Err(e) && e.kind == ErrorKind::ConfigCorrupt,
            },
            None => match r {
                Ok(p) => {
                    &&& p.0@ == spec_fresh_config(storage_root@, p.0.admin_port)
                    &&& admin_range.spec_contains(p.0.admin_port)
                    &&& p.1@ == spec_render_config(p.0@)
                    &&& p.0@.wf()
                },
                Err(e) => e.kind == ErrorKind::ResourceExhausted,
            },
        },
        existing is None && admin_range.spec_is_empty() ==> r is Err,
{
    match existing {
        Some(doc) => match parse_config(&doc) {
            Some(c) => Ok((c, doc)),
            None => Err(Error::new(ErrorKind::ConfigCorrupt)),
        },
        None => {
            let admin_port = match allocate_port(admin_range) {
                Ok(p) => p,
                Err(e) => {
                    return Err(e);
                },
            };
            let c = NodeConfig {
                storage_root,
                keystore_mode: KeystoreMode::InProcess,
                admin_port,
                network: NetworkConfig {
                    bootstrap_url: default_bootstrap_url(),
                    relay_url: default_relay_url(),
                },
            };
            let doc = render_config(&c);
            Ok((c, doc))
        },
    }
}

} // verus!
