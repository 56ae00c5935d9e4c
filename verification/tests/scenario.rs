use holomess::codec::PayloadValue;
use holomess::codec::decode_payload;
use holomess::codec::encode_payload;
use holomess::envelope::CellId;
use holomess::envelope::complete_invoke;
use holomess::envelope::complete_sign;
use holomess::envelope::decode_envelope;
use holomess::envelope::encode_envelope;
use holomess::envelope::make_envelope;
use holomess::envelope::signing_bytes;
use holomess::errors::Error;
use holomess::errors::ErrorKind;
use holomess::installer::AppStatus;
use holomess::installer::InstallOutcome;
use holomess::installer::InstallPlan;
use holomess::installer::InstalledApp;
use holomess::installer::InterfaceChoice;
use holomess::installer::NamedCell;
use holomess::installer::complete_attach;
use holomess::installer::complete_install;
use holomess::installer::plan_install;
use holomess::installer::plan_interface;
use holomess::installer::resolve_cell;
use holomess::lifecycle::LifecycleAction;
use holomess::lifecycle::LifecycleEvent;
use holomess::lifecycle::LifecyclePhase;
use holomess::lifecycle::NodeLifecycle;
use holomess::messages::MessageBoard;
use holomess::ports::PortRange;

const WIDE: PortRange = PortRange { min: 39000, max: 64000 };

/// The fake keystore: a deterministic signature over the signed bytes and
/// the signing key, so the fake host can verify what the signer produced.
fn fake_sign(bytes: &[u8], key: &[u8]) -> Vec<u8> {
    let mut sig = key.to_vec();
    sig.extend(bytes.iter().rev().take(8));
    sig.push(bytes.len() as u8);
    sig
}

/// A fake implementation of the host's two surfaces, backed by the
/// library's own board model, as the narrow-interface design intends.
struct FakeHost {
    apps: Vec<InstalledApp>,
    interfaces: Vec<u16>,
    board: MessageBoard,
    agent_key: Vec<u8>,
}

impl FakeHost {
    fn new() -> FakeHost {
        FakeHost {
            apps: Vec::new(),
            interfaces: Vec::new(),
            board: MessageBoard::new(),
            agent_key: b"agent-key".to_vec(),
        }
    }

    fn install(&mut self, app_id: &[u8]) -> InstalledApp {
        let app = InstalledApp {
            app_id: app_id.to_vec(),
            status: AppStatus::Running,
            cells: vec![NamedCell {
                role: app_id.to_vec(),
                cell: CellId { dna_hash: b"dna-hash".to_vec(), agent_key: self.agent_key.clone() },
            }],
        };
        self.apps.push(app.clone());
        app
    }

    fn attach_interface(&mut self) -> u16 {
        self.interfaces.push(7100);
        7100
    }

    /// The application surface: authenticate one signed call and dispatch
    /// it to the board.
    fn call(&mut self, wire: &Vec<u8>, now: u64) -> Result<Vec<u8>, String> {
        let env = match decode_envelope(wire) {
            Some(e) => e,
            None => return Err("malformed envelope".to_string()),
        };
        if env.call.expires_at <= now {
            return Err("expired".to_string());
        }
        let expected = fake_sign(&signing_bytes(&env.call), &env.call.provenance);
        if env.signature != expected {
            return Err("bad signature".to_string());
        }
        let payload = match decode_payload(&env.call.payload) {
            Some(p) => p,
            None => return Err("malformed payload".to_string()),
        };
        if env.call.fn_name.as_slice() == b"get_messages".as_slice() {
            if !matches!(payload, PayloadValue::Unit) {
                return Err("get_messages takes no argument".to_string());
            }
            let texts: Vec<Vec<u8>> =
                self.board.get_messages().into_iter().map(|m| m.text).collect();
            Ok(encode_payload(&PayloadValue::TextList(texts)))
        } else if env.call.fn_name.as_slice() == b"create_message".as_slice() {
            let text = match payload {
                PayloadValue::Text(t) => t,
                _ => return Err("create_message takes one text".to_string()),
            };
            let id = self.board.create_message(text);
            Ok(encode_payload(&PayloadValue::Text(id.to_le_bytes().to_vec())))
        } else {
            Err("unknown function".to_string())
        }
    }
}

/// The installer flow over the fake administrative surface.
fn ensure_installed(host: &mut FakeHost, app_id: &[u8]) -> (CellId, u16) {
    let apps = host.apps.clone();
    let app = match plan_install(&apps, &app_id.to_vec()) {
        InstallPlan::FreshInstall => {
            complete_install(InstallOutcome::Installed(host.install(app_id))).unwrap()
        }
        InstallPlan::Resume(i) => {
            host.apps[i].status = AppStatus::Running;
            host.apps[i].clone()
        }
        InstallPlan::AlreadyRunning(i) => apps[i].clone(),
    };
    let cell = resolve_cell(&app, &app_id.to_vec()).unwrap();
    let port = match plan_interface(&host.interfaces.clone()) {
        InterfaceChoice::Reuse(p) => p,
        InterfaceChoice::AttachNew => complete_attach(Ok(host.attach_interface())).unwrap(),
    };
    (cell, port)
}

/// One signed call: sign, send over the fake application surface, decode.
fn invoke(
    host: &mut FakeHost,
    cell: &CellId,
    fn_name: &[u8],
    payload: PayloadValue,
    now: u64,
) -> Result<PayloadValue, Error> {
    let unsigned = make_envelope(
        cell.clone(),
        b"holomess".to_vec(),
        fn_name.to_vec(),
        encode_payload(&payload),
        host.agent_key.clone(),
        now,
    )
    .unwrap();
    let sig = fake_sign(&signing_bytes(&unsigned), &unsigned.provenance);
    let signed = complete_sign(unsigned, Ok(sig)).unwrap();
    let wire = encode_envelope(&signed);
    let response = host.call(&wire, now);
    complete_invoke(response)
}

#[test]
fn one_message_survives_a_restart() {
    // fresh storage root: start the node
    let root = b"/tmp/holomess-scenario".to_vec();
    let mut node = NodeLifecycle::new();
    let (config, doc) = node.start(None, root.clone(), WIDE).unwrap();
    let persisted = doc;
    assert!(matches!(
        node.on_event(LifecycleEvent::Built(config.admin_port)),
        LifecycleAction::ConnectAdmin(_)
    ));
    node.on_event(LifecycleEvent::AdminConnected);
    assert_eq!(node.phase, LifecyclePhase::Ready);

    let mut host = FakeHost::new();
    let (cell, port) = ensure_installed(&mut host, b"msgboard");
    let now: u64 = 1_000_000;

    // zero records retrievable
    let got = invoke(&mut host, &cell, b"get_messages", PayloadValue::Unit, now).unwrap();
    assert_eq!(got, PayloadValue::TextList(Vec::new()));

    // create one record with text "hello"
    let made = invoke(
        &mut host,
        &cell,
        b"create_message",
        PayloadValue::Text(b"hello".to_vec()),
        now,
    )
    .unwrap();
    assert!(matches!(made, PayloadValue::Text(_)));
    let got = invoke(&mut host, &cell, b"get_messages", PayloadValue::Unit, now).unwrap();
    assert_eq!(got, PayloadValue::TextList(vec![b"hello".to_vec()]));

    // restart the whole process against the same storage root: the host
    // and its storage survive, the node starts over from the document
    let mut node2 = NodeLifecycle::new();
    let (config2, doc2) = node2.start(Some(persisted.clone()), root, WIDE).unwrap();
    assert_eq!(config2, config);
    assert_eq!(doc2, persisted);
    node2.on_event(LifecycleEvent::Built(config2.admin_port));
    node2.on_event(LifecycleEvent::AdminConnected);
    assert_eq!(node2.phase, LifecyclePhase::Ready);

    let (cell2, port2) = ensure_installed(&mut host, b"msgboard");
    assert_eq!(cell2, cell);
    assert_eq!(port2, port);
    assert_eq!(host.apps.len(), 1);
    assert_eq!(host.interfaces.len(), 1);

    // still exactly one record with text "hello": no duplication, no loss
    let got = invoke(&mut host, &cell2, b"get_messages", PayloadValue::Unit, now + 5).unwrap();
    assert_eq!(got, PayloadValue::TextList(vec![b"hello".to_vec()]));
}

#[test]
fn exhausted_port_range_fails_start_with_nothing_to_persist() {
    // a range of size zero: the whole scan finds nothing
    let mut node = NodeLifecycle::new();
    let err = node.start(None, b"/tmp/holomess-empty".to_vec(), PortRange { min: 5, max: 4 })
        .unwrap_err();
    assert_eq!(err.kind, ErrorKind::ResourceExhausted);
    // the attempt is terminal and handed nothing out, so the caller has no
    // document to write and no process to build: no side effects remain
    assert_eq!(node.phase, LifecyclePhase::Failed);
    assert_eq!(node.failure, Some(ErrorKind::ResourceExhausted));
}

#[test]
fn stale_or_tampered_envelopes_are_rejected_independently() {
    let mut host = FakeHost::new();
    let (cell, _port) = ensure_installed(&mut host, b"msgboard");
    let now: u64 = 1_000_000;

    // an expired envelope is rejected with the host's reason
    let unsigned = make_envelope(
        cell.clone(),
        b"holomess".to_vec(),
        b"get_messages".to_vec(),
        encode_payload(&PayloadValue::Unit),
        host.agent_key.clone(),
        now,
    )
    .unwrap();
    let expiry = unsigned.expires_at;
    let sig = fake_sign(&signing_bytes(&unsigned), &unsigned.provenance);
    let wire = encode_envelope(&complete_sign(unsigned, Ok(sig)).unwrap());
    let err = complete_invoke(host.call(&wire, expiry + 1)).unwrap_err();
    assert_eq!(err.kind, ErrorKind::CallRejected);
    assert_eq!(err.detail.as_deref(), Some("expired"));

    // a tampered signature is rejected
    let unsigned = make_envelope(
        cell.clone(),
        b"holomess".to_vec(),
        b"get_messages".to_vec(),
        encode_payload(&PayloadValue::Unit),
        host.agent_key.clone(),
        now,
    )
    .unwrap();
    let mut sig = fake_sign(&signing_bytes(&unsigned), &unsigned.provenance);
    sig[0] ^= 1;
    let wire = encode_envelope(&complete_sign(unsigned, Ok(sig)).unwrap());
    let err = complete_invoke(host.call(&wire, now)).unwrap_err();
    assert_eq!(err.kind, ErrorKind::CallRejected);
    assert_eq!(err.detail.as_deref(), Some("bad signature"));

    // acceptance of a fresh envelope does not depend on the earlier ones
    let got = invoke(&mut host, &cell, b"get_messages", PayloadValue::Unit, now).unwrap();
    assert_eq!(got, PayloadValue::TextList(Vec::new()));
}
