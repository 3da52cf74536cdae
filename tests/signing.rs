use kaspa_consensus_core::tx::{
    PopulatedTransaction, ScriptPublicKey, TransactionInput, TransactionOutpoint, TransactionOutput, UtxoEntry,
};
use sidecar_kaspa::address::{address_for_key, address_for_public_key, check_address_shape, public_key, AddressVersion, Network};
use sidecar_kaspa::backoff::{next_delay, LinkAction, LinkPhase, Reconnector};
use sidecar_kaspa::keys::{derive_private_key, is_valid_secret, private_key_from_source, KeyError};
use sidecar_kaspa::pipeline::{finish_submission, parse_txid, prepare_signed_transaction, PipelineError};
use sidecar_kaspa::request::{SubmitSignedReq, SubmitSignedResp, UtxoIn};
use sidecar_kaspa::script::{locking_script_for_address, unlocking_script_for_signature, LockingScript, ScriptError};
use sidecar_kaspa::signer::sign_all;
use sidecar_kaspa::state::RuntimeState;
use sidecar_kaspa::tx::{build_transaction, total_amount, BuildError, UtxoRef};

const KEY_11: &str = "1111111111111111111111111111111111111111111111111111111111111111";
const PUB_11: &str = "4f355bdcb7cc0af728ef3cceb9615d90684bb5b2ca5f859ab0f0b704075871aa";
const ADDR_11_MAINNET: &str = "kaspa:qp8n2k7uklxq4aegau7vawtptkgxsja4kt99lpv6krctwpq8tpc6547zhh9u4";
const ADDR_22_MAINNET: &str = "kaspa:qprx6l72u437tjcf5rgcwza4sq6ysprp0pu6zj2feu3zshcm4cljwzyxcndsc";
const ADDR_22_TESTNET: &str = "kaspatest:qprx6l72u437tjcf5rgcwza4sq6ysprp0pu6zj2feu3zshcm4cljwrzqrunpu";
const TXID_A: &str = "aaaaaaaaaaaaaaaaaaaaaaaaaaaaaaaaaaaaaaaaaaaaaaaaaaaaaaaaaaaaaaaa";

fn unhex(s: &str) -> Vec<u8> {
    (0..s.len() / 2).map(|i| u8::from_str_radix(&s[2 * i..2 * i + 2], 16).unwrap()).collect()
}

fn to_script() -> LockingScript {
    LockingScript { version: 0, script: vec![0x51] }
}

fn utxo(amount: u64, index: u32) -> UtxoRef {
    UtxoRef { txid: [0xaa; 32], index, amount }
}

fn request(amounts: &[u64], amount: u64, fee: u64) -> SubmitSignedReq {
    SubmitSignedReq {
        to_address: ADDR_22_MAINNET.to_string(),
        amount_sompi: amount,
        fee_sompi: fee,
        utxos: amounts
            .iter()
            .enumerate()
            .map(|(i, a)| UtxoIn { txid: TXID_A.to_string(), index: i as u32, amount_sompi: *a })
            .collect(),
    }
}

#[test]
fn key_parses_plain_hex() {
    let k = derive_private_key(KEY_11).unwrap();
    assert_eq!(k.as_bytes(), &[0x11u8; 32][..]);
}

#[test]
fn key_parses_with_prefix_and_whitespace() {
    let text = format!("  \t0x{}\n", KEY_11);
    let k = derive_private_key(&text).unwrap();
    assert_eq!(k.as_bytes(), &[0x11u8; 32][..]);
    let upper = "0xABCDEF0123456789abcdef0123456789ABCDEF0123456789abcdef0123456789";
    let k = derive_private_key(upper).unwrap();
    assert_eq!(k.as_bytes()[0], 0xab);
    assert_eq!(k.as_bytes()[31], 0x89);
}

#[test]
fn key_of_wrong_length_is_malformed() {
    assert_eq!(derive_private_key("1234").err(), Some(KeyError::MalformedKey { len: 4 }));
    assert_eq!(derive_private_key("").err(), Some(KeyError::MalformedKey { len: 0 }));
    let long = format!("{}00", KEY_11);
    assert_eq!(derive_private_key(&long).err(), Some(KeyError::MalformedKey { len: 66 }));
    let odd = format!("0x{}", &KEY_11[..63]);
    assert_eq!(derive_private_key(&odd).err(), Some(KeyError::MalformedKey { len: 63 }));
}

#[test]
fn key_with_non_hex_digits_is_refused() {
    let bad = format!("zz{}", &KEY_11[2..]);
    assert_eq!(derive_private_key(&bad).err(), Some(KeyError::InvalidHexEncoding));
    assert_eq!(derive_private_key(&"zz".repeat(32)).err(), Some(KeyError::InvalidHexEncoding));
}

#[test]
fn only_one_prefix_is_optional() {
    let doubled = format!("0x0x{}", KEY_11);
    assert_eq!(derive_private_key(&doubled).err(), Some(KeyError::MalformedKey { len: 66 }));
    let doubled_short = format!("0x0x{}", &KEY_11[..62]);
    assert_eq!(derive_private_key(&doubled_short).err(), Some(KeyError::InvalidHexEncoding));
    let short = format!("0x{}", &KEY_11[..62]);
    assert_eq!(derive_private_key(&short).err(), Some(KeyError::MalformedKey { len: 62 }));
    let one = format!("0x{}", KEY_11);
    assert_eq!(derive_private_key(&one).unwrap().as_bytes(), &[0x11u8; 32][..]);
    let spaced = format!("\u{3000} 0x{}\u{a0}", KEY_11);
    assert_eq!(derive_private_key(&spaced).unwrap().as_bytes(), &[0x11u8; 32][..]);
}

#[test]
fn key_out_of_scalar_range_is_refused() {
    let zero = "0".repeat(64);
    assert_eq!(derive_private_key(&zero).err(), Some(KeyError::InvalidScalar));
    let order = "FFFFFFFFFFFFFFFFFFFFFFFFFFFFFFFEBAAEDCE6AF48A03BBFD25E8CD0364141";
    assert_eq!(derive_private_key(order).err(), Some(KeyError::InvalidScalar));
    let below = "FFFFFFFFFFFFFFFFFFFFFFFFFFFFFFFEBAAEDCE6AF48A03BBFD25E8CD0364140";
    assert!(derive_private_key(below).is_ok());
    assert!(derive_private_key(&"f".repeat(64)).is_err());
}

#[test]
fn scalar_range_edges() {
    assert!(!is_valid_secret(&[0u8; 32]));
    let mut one = [0u8; 32];
    one[31] = 1;
    assert!(is_valid_secret(&one));
    assert!(!is_valid_secret(&[0xff; 32]));
}

#[test]
fn missing_key_source() {
    assert_eq!(private_key_from_source(None).err(), Some(KeyError::Missing));
    assert!(private_key_from_source(Some(KEY_11)).is_ok());
}

#[test]
fn public_key_of_known_secret() {
    let k = derive_private_key(KEY_11).unwrap();
    assert_eq!(public_key(&k), unhex(PUB_11));
}

#[test]
fn address_of_key_11_on_mainnet_is_pinned() {
    let k = derive_private_key(KEY_11).unwrap();
    let a = address_for_key(&k, Network::Mainnet);
    assert_eq!(a, ADDR_11_MAINNET);
    assert!(a.starts_with("kaspa:"));
    assert_eq!(address_for_key(&k, Network::Mainnet), a);
}

#[test]
fn address_round_trip_recovers_public_key() {
    let k = derive_private_key(KEY_11).unwrap();
    let a = address_for_key(&k, Network::Mainnet);
    let s = locking_script_for_address(&a, Network::Mainnet).unwrap();
    let mut expected = vec![0x20u8];
    expected.extend(unhex(PUB_11));
    expected.push(0xac);
    assert_eq!(s.version, 0);
    assert_eq!(s.script, expected);
}

#[test]
fn address_on_other_network_is_refused() {
    assert_eq!(locking_script_for_address(ADDR_22_TESTNET, Network::Mainnet).err(), Some(ScriptError::InvalidAddress));
    assert!(locking_script_for_address(ADDR_22_TESTNET, Network::Testnet).is_ok());
}

#[test]
fn malformed_addresses_are_refused() {
    for a in ["", "kaspa", "kaspa:", "kaspa:qqqqqqqq", "bitcoin:qprx6l72u437tjcf5rgcwza4sq6ysprp0pu6zj2feu3zshcm4cljwzyxcndsc"] {
        assert_eq!(locking_script_for_address(a, Network::Mainnet).err(), Some(ScriptError::InvalidAddress), "{a}");
    }
    let mut bad_checksum = ADDR_22_MAINNET.to_string();
    bad_checksum.pop();
    bad_checksum.push('q');
    assert_eq!(locking_script_for_address(&bad_checksum, Network::Mainnet).err(), Some(ScriptError::InvalidAddress));
}

#[test]
fn address_shape_guard() {
    assert!(check_address_shape(ADDR_22_MAINNET.as_bytes()));
    assert!(check_address_shape(b"no colon at all"));
    assert!(!check_address_shape(b"kaspa:qqqqqqqq"));
    assert!(!check_address_shape(b"kaspa:qpzry9x8gf"));
}

#[test]
fn unlocking_script_pushes_signature_and_type() {
    let sig = [0xabu8; 64];
    let s = unlocking_script_for_signature(&sig, 1);
    assert_eq!(s.len(), 66);
    assert_eq!(s[0], 65);
    assert_eq!(&s[1..65], &sig[..]);
    assert_eq!(s[65], 1);
    assert_eq!(unlocking_script_for_signature(&[], 1), vec![0x51]);
    let long = [7u8; 100];
    let s = unlocking_script_for_signature(&long, 1);
    assert_eq!(&s[..2], &[0x4c, 101]);
    assert_eq!(s.len(), 103);
}

#[test]
fn build_exact_sum() {
    let to = to_script();
    let tx = build_transaction(&vec![utxo(1010, 0)], &to, 1000, 10).unwrap();
    assert_eq!(tx.outputs.len(), 1);
    assert_eq!(tx.outputs[0].amount, 1000);
    assert_eq!(tx.outputs[0].script.script, vec![0x51]);
    assert_eq!(tx.inputs.len(), 1);
    assert_eq!(tx.inputs[0].utxo.txid, [0xaa; 32]);
    assert_eq!(tx.inputs[0].utxo.index, 0);
    assert!(tx.inputs[0].signature_script.is_empty());
    assert_eq!(tx.inputs[0].sequence, 0);
}

#[test]
fn build_keeps_input_order() {
    let tx = build_transaction(&vec![utxo(5, 3), utxo(7, 1), utxo(8, 2)], &to_script(), 15, 5).unwrap();
    let idx: Vec<u32> = tx.inputs.iter().map(|i| i.utxo.index).collect();
    assert_eq!(idx, vec![3, 1, 2]);
}

#[test]
fn build_amount_mismatch() {
    let r = build_transaction(&vec![utxo(900, 0)], &to_script(), 1000, 10);
    assert_eq!(r.err(), Some(BuildError::AmountMismatch { input_sum: 900, required: 1010 }));
    let r = build_transaction(&vec![utxo(2000, 0)], &to_script(), 1000, 10);
    assert_eq!(r.err(), Some(BuildError::AmountMismatch { input_sum: 2000, required: 1010 }));
}

#[test]
fn build_empty_inputs() {
    assert_eq!(build_transaction(&vec![], &to_script(), 0, 0).err(), Some(BuildError::EmptyInputSet));
    assert_eq!(build_transaction(&vec![], &to_script(), 1000, 10).err(), Some(BuildError::EmptyInputSet));
}

#[test]
fn sums_do_not_overflow() {
    let inputs = vec![utxo(u64::MAX, 0), utxo(u64::MAX, 1)];
    assert_eq!(total_amount(&inputs), 2 * (u64::MAX as u128));
    let r = build_transaction(&inputs, &to_script(), u64::MAX, u64::MAX);
    assert!(r.is_ok());
}

#[test]
fn signing_fills_every_input_and_keeps_structure() {
    let k = derive_private_key(KEY_11).unwrap();
    let spent = locking_script_for_address(ADDR_11_MAINNET, Network::Mainnet).unwrap();
    let tx = build_transaction(&vec![utxo(600, 0), utxo(410, 1)], &to_script(), 1000, 10).unwrap();
    let a = sign_all(&tx, &k, &spent);
    let b = sign_all(&tx, &k, &spent);
    for signed in [&a, &b] {
        assert_eq!(signed.inputs.len(), 2);
        assert_eq!(signed.outputs[0].amount, 1000);
        for (i, inp) in signed.inputs.iter().enumerate() {
            assert_eq!(inp.utxo.index, i as u32);
            assert_eq!(inp.signature_script.len(), 66);
            assert_eq!(inp.signature_script[0], 65);
            assert_eq!(inp.signature_script[65], 1);
        }
    }
    assert!(tx.inputs.iter().all(|i| i.signature_script.is_empty()));
}

#[test]
fn pipeline_pays_request() {
    let req = request(&[1010], 1000, 10);
    let tx = prepare_signed_transaction(Some(KEY_11), Network::Mainnet, &req).unwrap();
    assert_eq!(tx.outputs.len(), 1);
    assert_eq!(tx.outputs[0].amount, 1000);
    assert_eq!(tx.inputs.len(), 1);
    assert_eq!(tx.inputs[0].utxo.txid, [0xaa; 32]);
    assert_eq!(tx.inputs[0].utxo.index, 0);
    assert_eq!(tx.inputs[0].signature_script.len(), 66);
    let mut expected = vec![0x20u8];
    expected.extend(unhex("466d7fcae563e5cb09a0d1870bb580344804617879a14949cf22285f1bae3f27"));
    expected.push(0xac);
    assert_eq!(tx.outputs[0].script.script, expected);
    assert_eq!(tx.gas, 0);
    assert!(tx.payload.is_empty());
    assert_eq!(tx.subnetwork_id, [0u8; 20]);
    assert_eq!(tx.inputs[0].sig_op_count, 1);
}

#[test]
fn pipeline_amount_mismatch() {
    let req = request(&[900], 1000, 10);
    match prepare_signed_transaction(Some(KEY_11), Network::Mainnet, &req) {
        Err(PipelineError::Build(BuildError::AmountMismatch { input_sum, required })) => {
            assert_eq!((input_sum, required), (900, 1010));
        }
        other => panic!("unexpected: {:?}", other.err()),
    }
}

#[test]
fn pipeline_missing_key_fails_first() {
    let req = request(&[900], 1000, 10);
    assert!(matches!(prepare_signed_transaction(None, Network::Mainnet, &req), Err(PipelineError::Key(KeyError::Missing))));
    let mut bad_addr = request(&[1010], 1000, 10);
    bad_addr.to_address = "nope".to_string();
    assert!(matches!(prepare_signed_transaction(None, Network::Mainnet, &bad_addr), Err(PipelineError::Key(KeyError::Missing))));
}

#[test]
fn pipeline_empty_utxos() {
    let req = request(&[], 1000, 10);
    assert!(matches!(prepare_signed_transaction(None, Network::Mainnet, &req), Err(PipelineError::Build(BuildError::EmptyInputSet))));
}

#[test]
fn pipeline_bad_address_and_txid() {
    let mut req = request(&[1010], 1000, 10);
    req.to_address = ADDR_22_TESTNET.to_string();
    assert!(matches!(prepare_signed_transaction(Some(KEY_11), Network::Mainnet, &req), Err(PipelineError::InvalidAddress)));
    let mut req = request(&[500, 510], 1000, 10);
    req.utxos[1].txid = "xyz".to_string();
    assert!(matches!(
        prepare_signed_transaction(Some(KEY_11), Network::Mainnet, &req),
        Err(PipelineError::InvalidTxid { position: 1 })
    ));
}

#[test]
fn txid_parsing() {
    assert_eq!(parse_txid(TXID_A), Some([0xaa; 32]));
    assert_eq!(parse_txid("aa"), None);
    assert_eq!(parse_txid(&"g".repeat(64)), None);
}

#[test]
fn submission_answers() {
    assert_eq!(finish_submission(Ok("abc".to_string())).ok(), Some("abc".to_string()));
    match finish_submission(Err("rejected".to_string())) {
        Err(PipelineError::SubmitFailed { detail }) => assert_eq!(detail, "rejected"),
        _ => panic!("expected a submit failure"),
    }
}

#[test]
fn backoff_doubles_up_to_cap_and_never_stops() {
    let mut r = Reconnector::new();
    let mut slept = Vec::new();
    for _ in 0..10 {
        assert_eq!(r.begin_attempt(), LinkAction::Connect);
        assert_eq!(r.phase, LinkPhase::Connecting);
        match r.on_attempt_result(false) {
            LinkAction::SleepSecs(s) => slept.push(s),
            other => panic!("expected a sleep, got {:?}", other),
        }
        assert_eq!(r.phase, LinkPhase::Disconnected);
    }
    assert_eq!(slept, vec![1, 2, 4, 8, 16, 32, 60, 60, 60, 60]);
    assert_eq!(r.on_attempt_result(true), LinkAction::Idle);
    assert_eq!(r.phase, LinkPhase::Connected);
    assert_eq!(r.delay_secs, 1);
}

#[test]
fn next_delay_values() {
    assert_eq!(next_delay(1), 2);
    assert_eq!(next_delay(29), 58);
    assert_eq!(next_delay(30), 60);
    assert_eq!(next_delay(60), 60);
    assert_eq!(next_delay(u64::MAX), 60);
}

#[test]
fn runtime_state_readiness() {
    let mut s = RuntimeState::new(100);
    assert!(!s.is_ready());
    s.set_connected(true);
    assert!(!s.is_ready());
    s.record_daa(42, 105);
    assert!(s.is_ready());
    assert_eq!(s.daa(), 42);
    assert_eq!(s.uptime_secs(130), 30);
    assert_eq!(s.uptime_secs(50), 0);
    s.record_error(140);
    assert!(!s.is_connected());
    assert_eq!(s.last_error_ts(), 140);
    assert_eq!(s.daa_updated_ts(), 105);
}

#[test]
fn responses() {
    let ok = SubmitSignedResp::ok("t".to_string());
    assert_eq!(ok.status, "ok");
    assert_eq!(ok.txid.as_deref(), Some("t"));
    let err = SubmitSignedResp::error("bad".to_string());
    assert_eq!(err.status, "error");
    assert_eq!(err.error.as_deref(), Some("bad"));
}

#[test]
fn address_for_public_key_checks_length() {
    let pk = unhex(PUB_11);
    assert_eq!(address_for_public_key(&pk, Network::Mainnet, AddressVersion::PubKey).as_deref(), Some(ADDR_11_MAINNET));
    assert_eq!(address_for_public_key(&pk, Network::Mainnet, AddressVersion::PubKeyEcdsa), None);
    assert_eq!(address_for_public_key(&pk[..31], Network::Mainnet, AddressVersion::PubKey), None);
    let t = address_for_public_key(&pk, Network::Testnet, AddressVersion::PubKey).unwrap();
    assert!(t.starts_with("kaspatest:"));
    assert!(locking_script_for_address(&t, Network::Testnet).is_ok());
}

fn kaspa_form(tx: &sidecar_kaspa::tx::Transaction) -> kaspa_consensus_core::tx::Transaction {
    let ins = tx
        .inputs
        .iter()
        .map(|i| {
            let outpoint = TransactionOutpoint::new(i.utxo.txid.into(), i.utxo.index);
            TransactionInput::new(outpoint, i.signature_script.clone(), i.sequence, i.sig_op_count)
        })
        .collect();
    let outs = tx
        .outputs
        .iter()
        .map(|o| TransactionOutput::new(o.amount, ScriptPublicKey::from_vec(o.script.version, o.script.script.clone())))
        .collect();
    kaspa_consensus_core::tx::Transaction::new(
        tx.version,
        ins,
        outs,
        tx.lock_time,
        kaspa_consensus_core::subnets::SubnetworkId::from_bytes(tx.subnetwork_id),
        tx.gas,
        tx.payload.clone(),
    )
}

#[test]
fn signatures_verify_under_the_key() {
    let req = request(&[600, 410], 1000, 10);
    let signed = prepare_signed_transaction(Some(KEY_11), Network::Mainnet, &req).unwrap();
    let mut own = vec![0x20u8];
    own.extend(unhex(PUB_11));
    own.push(0xac);
    let entries: Vec<UtxoEntry> =
        signed.inputs.iter().map(|i| UtxoEntry::new(i.utxo.amount, ScriptPublicKey::from_vec(0, own.clone()), 0, false)).collect();
    let ktx = kaspa_form(&signed);
    assert!(kaspa_consensus_core::sign::verify(&PopulatedTransaction::new(&ktx, entries.clone())).is_ok());

    let mut tampered = kaspa_form(&signed);
    tampered.inputs[1].signature_script[10] ^= 1;
    assert!(kaspa_consensus_core::sign::verify(&PopulatedTransaction::new(&tampered, entries)).is_err());
}

#[test]
fn standard_scripts_per_address_version() {
    let hash = [0x5au8; 32];
    let a = address_for_public_key(&hash, Network::Mainnet, AddressVersion::ScriptHash).unwrap();
    let s = locking_script_for_address(&a, Network::Mainnet).unwrap();
    let mut expected = vec![0xaa, 0x20];
    expected.extend(hash);
    expected.push(0x87);
    assert_eq!(s.script, expected);

    let mut ecdsa = vec![0x02u8];
    ecdsa.extend(unhex(PUB_11));
    let a = address_for_public_key(&ecdsa, Network::Testnet, AddressVersion::PubKeyEcdsa).unwrap();
    let s = locking_script_for_address(&a, Network::Testnet).unwrap();
    let mut expected = vec![0x21];
    expected.extend(&ecdsa);
    expected.push(0xab);
    assert_eq!(s.script, expected);
}
