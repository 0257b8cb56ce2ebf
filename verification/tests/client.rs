use bytes::Bytes;
use ed25519_dalek::Signer;
use makiko::cipher::{CipherAlgo, CipherAlgoVariant, PacketKeys};
use makiko::client::auth::{
    is_authenticated, pump_auth, start_method, AuthEvent, AuthMethod, AuthOutcome,
};
use makiko::client::channel::{DATA_TOO_LONG, WINDOW_EXCEEDED};
use makiko::client::client_event::{ClientEvent, Finished, KexOutcome};
use makiko::client::client_state::{
    count_recvd, count_sent, new_client, poll_write, recv_ident, take_event, take_finished,
    take_wakeup, ClientState,
};
use makiko::client::config::ClientConfig;
use makiko::client::conn::{
    open_channel, open_request, pump_conn, send_channel_data, send_channel_end,
    send_channel_request,
};
use makiko::client::negotiate::{
    is_ready, pump_negotiate, pump_negotiate_with, start_kex, wanted, Polled, State, Wanted,
};
use makiko::client::pump::Pump;
use makiko::client::recv::{recv_packet, Received};
use makiko::codec::pipe::Outbound;
use makiko::error::Error;
use makiko::kex::KexOutput;
use makiko::pubkey::Pubkey;
use sha2::Digest;

fn string(octets: &[u8]) -> Vec<u8> {
    let mut out = (octets.len() as u32).to_be_bytes().to_vec();
    out.extend_from_slice(octets);
    out
}

fn keypair() -> ed25519_dalek::Keypair {
    let secret = ed25519_dalek::SecretKey::from_bytes(&[9u8; 32]).unwrap();
    let public = ed25519_dalek::PublicKey::from(&secret);
    ed25519_dalek::Keypair { secret, public }
}

fn pubkey_blob() -> Vec<u8> {
    let mut blob = string(b"ssh-ed25519");
    blob.extend(string(keypair().public.as_bytes()));
    blob
}

fn signature_blob(message: &[u8]) -> Vec<u8> {
    let mut blob = string(b"ssh-ed25519");
    blob.extend(string(&keypair().sign(message).to_bytes()));
    blob
}

fn kex_output(exchange_hash: &[u8]) -> KexOutput {
    KexOutput {
        shared_secret: vec![0x00, 0x9a, 0x01, 0x02],
        exchange_hash: Bytes::copy_from_slice(exchange_hash),
        server_pubkey: Bytes::from(pubkey_blob()),
        server_exchange_hash_sign: Bytes::from(signature_blob(exchange_hash)),
    }
}

fn kex_init(kex: &str, pubkey: &str, cipher: &str, mac: &str, follows: bool) -> Bytes {
    let mut payload = vec![20u8];
    payload.extend_from_slice(&[3u8; 16]);
    payload.extend(string(kex.as_bytes()));
    payload.extend(string(pubkey.as_bytes()));
    payload.extend(string(cipher.as_bytes()));
    payload.extend(string(cipher.as_bytes()));
    payload.extend(string(mac.as_bytes()));
    payload.extend(string(mac.as_bytes()));
    payload.extend(string(b"none"));
    payload.extend(string(b"none"));
    payload.extend(string(b""));
    payload.extend(string(b""));
    payload.push(if follows { 1 } else { 0 });
    payload.extend_from_slice(&[0, 0, 0, 0]);
    Bytes::from(payload)
}

fn server_kex_init() -> Bytes {
    kex_init("curve25519-sha256", "ssh-ed25519", "aes128-ctr", "hmac-sha2-256", false)
}

fn pump(st: &mut ClientState, now: u64, polled: Polled) -> Result<Pump, Error> {
    pump_negotiate_with(st, now, polled, Some([7u8; 16]))
}

fn drain(st: &mut ClientState) -> Vec<Outbound> {
    let mut out = Vec::new();
    while let Some(item) = poll_write(st) {
        out.push(item);
    }
    out
}

fn payloads(items: &[Outbound]) -> Vec<Vec<u8>> {
    items
        .iter()
        .filter_map(|item| match item {
            Outbound::Packet { payload, .. } => Some(payload.clone()),
            Outbound::NewKeys { .. } => None,
        })
        .collect()
}

/// Runs a key exchange from the sending of our `SSH_MSG_KEXINIT` to the end.
fn exchange_keys(st: &mut ClientState, now: u64, exchange_hash: &[u8]) {
    assert_eq!(st.negotiate_state(), State::KexInit);
    assert_eq!(pump(st, now, Polled::Pending), Ok(Pump::Pending));
    assert!(matches!(recv_packet(st, server_kex_init()), Ok(Received::Nothing)));
    assert_eq!(pump(st, now, Polled::Pending), Ok(Pump::Progress));
    assert_eq!(st.negotiate_state(), State::Kex);
    let output = kex_output(exchange_hash);
    assert_eq!(pump(st, now, Polled::KexOutput(output)), Ok(Pump::Progress));
    assert_eq!(st.negotiate_state(), State::AcceptPubkey);
    assert_eq!(pump(st, now, Polled::Pending), Ok(Pump::Progress));
    assert!(matches!(take_event(st), Some(ClientEvent::ServerPubkey(_))));
    assert_eq!(pump(st, now, Polled::Accepted), Ok(Pump::Progress));
    assert_eq!(st.negotiate_state(), State::NewKeys);
    assert_eq!(pump(st, now, Polled::Pending), Ok(Pump::Progress));
    assert!(matches!(recv_packet(st, Bytes::from_static(&[21])), Ok(Received::Nothing)));
    assert_eq!(pump(st, now, Polled::Pending), Ok(Pump::Progress));
    assert_eq!(st.negotiate_state(), State::Done);
    assert_eq!(pump(st, now, Polled::Pending), Ok(Pump::Progress));
    assert_eq!(st.negotiate_state(), State::Idle);
}

fn connected() -> ClientState {
    let mut st = new_client(ClientConfig::default(), 1_000).unwrap();
    recv_ident(&mut st, b"SSH-2.0-server").unwrap();
    exchange_keys(&mut st, 1_000, &[0x11u8; 32]);
    drain(&mut st);
    st
}

fn authenticated() -> ClientState {
    let mut st = connected();
    let method = AuthMethod::Nothing { username: b"u".to_vec() };
    assert_eq!(start_method(&mut st, method), Ok(None));
    assert_eq!(pump_auth(&mut st), Ok(Pump::Progress));
    let mut accept = vec![6u8];
    accept.extend(string(b"ssh-userauth"));
    assert!(matches!(recv_packet(&mut st, Bytes::from(accept)), Ok(Received::Nothing)));
    assert_eq!(pump_auth(&mut st), Ok(Pump::Progress));
    match recv_packet(&mut st, Bytes::from_static(&[52])) {
        Ok(Received::Auth(AuthEvent::Outcome(AuthOutcome::Success))) => {},
        other => panic!("unexpected {:?}", other.is_ok()),
    }
    drain(&mut st);
    st
}

fn with_channel() -> ClientState {
    let mut st = authenticated();
    let open = open_request(b"session".to_vec(), Bytes::new(), 77);
    open_channel(&mut st, open).unwrap();
    assert_eq!(pump_conn(&mut st), Ok(Pump::Progress));
    // our number 0, their number 5, their window 1000, their largest packet 300
    let mut confirm = vec![91u8];
    confirm.extend_from_slice(&0u32.to_be_bytes());
    confirm.extend_from_slice(&5u32.to_be_bytes());
    confirm.extend_from_slice(&1000u32.to_be_bytes());
    confirm.extend_from_slice(&300u32.to_be_bytes());
    match recv_packet(&mut st, Bytes::from(confirm)) {
        Ok(Received::ChannelOpened(opened)) => {
            assert_eq!(opened.confirmed_tx, 77);
            assert_eq!(opened.our_id, 0);
            assert!(opened.confirm_payload.is_empty());
        },
        _ => panic!("the channel was not opened"),
    }
    drain(&mut st);
    st
}

fn derived(letter: u8, len: usize, secret_mpint: &[u8], hash: &[u8], session_id: &[u8]) -> Vec<u8> {
    let mut prefix = string(secret_mpint);
    prefix.extend_from_slice(hash);
    let mut first = prefix.clone();
    first.push(letter);
    first.extend_from_slice(session_id);
    let mut key = sha2::Sha256::digest(&first).to_vec();
    while key.len() < len {
        let mut next = prefix.clone();
        next.extend_from_slice(&key);
        key.extend_from_slice(&sha2::Sha256::digest(&next));
    }
    key.truncate(len);
    key
}

#[test]
fn first_step_sends_kex_init_with_our_algorithms() {
    let mut st = new_client(ClientConfig::default(), 0).unwrap();
    assert_eq!(pump(&mut st, 0, Polled::Pending), Ok(Pump::Pending));
    let sent = drain(&mut st);
    assert_eq!(sent.len(), 1);

    let mut expected = vec![20u8];
    expected.extend_from_slice(&[7u8; 16]);
    expected.extend(string(b"curve25519-sha256,curve25519-sha256@libssh.org,ext-info-c"));
    expected.extend(string(b"ssh-ed25519"));
    expected.extend(string(b"aes128-ctr,aes192-ctr,aes256-ctr"));
    expected.extend(string(b"aes128-ctr,aes192-ctr,aes256-ctr"));
    expected.extend(string(b"hmac-sha2-256"));
    expected.extend(string(b"hmac-sha2-256"));
    expected.extend(string(b"none"));
    expected.extend(string(b"none"));
    expected.extend(string(b""));
    expected.extend(string(b""));
    expected.push(0);
    expected.extend_from_slice(&[0, 0, 0, 0]);
    assert!(sent[0] == Outbound::Packet { seq: 0, payload: expected });
}

#[test]
fn random_cookie_differs_between_clients() {
    let mut first = new_client(ClientConfig::default(), 0).unwrap();
    let mut second = new_client(ClientConfig::default(), 0).unwrap();
    assert_eq!(pump_negotiate(&mut first, 0, Polled::Pending), Ok(Pump::Pending));
    assert_eq!(pump_negotiate(&mut second, 0, Polled::Pending), Ok(Pump::Pending));
    let first = payloads(&drain(&mut first));
    let second = payloads(&drain(&mut second));
    assert_eq!(first[0].len(), second[0].len());
    assert_eq!(first[0][0], 20);
    assert_ne!(first[0][1..17], second[0][1..17]);
    assert_eq!(first[0][17..], second[0][17..]);
}

#[test]
fn handshake_chooses_algorithms_and_installs_keys() {
    let mut st = new_client(ClientConfig::default(), 5).unwrap();
    recv_ident(&mut st, b"SSH-2.0-server").unwrap();
    assert_eq!(pump(&mut st, 5, Polled::Pending), Ok(Pump::Pending));
    let our_kex_init = payloads(&drain(&mut st)).remove(0);
    assert!(matches!(recv_packet(&mut st, server_kex_init()), Ok(Received::Nothing)));
    assert_eq!(pump(&mut st, 5, Polled::Pending), Ok(Pump::Progress));

    let algos = st.algos().unwrap();
    assert_eq!(algos.kex.name, "curve25519-sha256");
    assert_eq!(algos.server_pubkey.name, "ssh-ed25519");
    assert_eq!(algos.cipher_cts.name, "aes128-ctr");
    assert_eq!(algos.cipher_stc.name, "aes128-ctr");
    assert_eq!(algos.mac_cts.name, "hmac-sha2-256");
    assert_eq!(algos.mac_stc.name, "hmac-sha2-256");

    match wanted(&st) {
        Wanted::Kex(algo, input) => {
            assert_eq!(algo.name, "curve25519-sha256");
            assert_eq!(&input.client_ident[..], b"SSH-2.0-makiko_0.1.0");
            assert_eq!(&input.server_ident[..], b"SSH-2.0-server");
            assert_eq!(&input.client_kex_init[..], &our_kex_init[..]);
            assert_eq!(input.server_kex_init, server_kex_init());
        },
        _ => panic!("the key exchange is not wanted"),
    }

    // a message of the exchange goes out as it is
    let init = Bytes::from_static(&[30, 0, 0, 0, 1, 42]);
    assert_eq!(pump(&mut st, 5, Polled::KexPacket(init)), Ok(Pump::Progress));
    assert!(drain(&mut st) == vec![Outbound::Packet { seq: 1, payload: vec![30, 0, 0, 0, 1, 42] }]);
    assert_eq!(pump(&mut st, 5, Polled::Pending), Ok(Pump::Pending));

    let hash = [0x22u8; 32];
    assert_eq!(pump(&mut st, 5, Polled::KexOutput(kex_output(&hash))), Ok(Pump::Progress));
    assert_eq!(st.session_id(), Some(&hash[..]));
    assert!(matches!(wanted(&st), Wanted::Nothing));
    assert_eq!(pump(&mut st, 5, Polled::Pending), Ok(Pump::Progress));
    let expected_key = Pubkey::decode(Bytes::from(pubkey_blob())).unwrap();
    assert_eq!(take_event(&mut st), Some(ClientEvent::ServerPubkey(expected_key)));
    assert!(matches!(wanted(&st), Wanted::Accept));
    assert_eq!(pump(&mut st, 5, Polled::Pending), Ok(Pump::Pending));
    assert_eq!(pump(&mut st, 5, Polled::Accepted), Ok(Pump::Progress));
    assert_eq!(pump(&mut st, 5, Polled::Pending), Ok(Pump::Progress));

    // SSH_MSG_NEWKEYS goes out under the old keys, then come the new keys
    let secret = [0x00u8, 0x9a, 0x01, 0x02];
    let sent = drain(&mut st);
    assert_eq!(sent.len(), 2);
    assert!(sent[0] == Outbound::Packet { seq: 2, payload: vec![21] });
    match &sent[1] {
        Outbound::NewKeys { keys: PacketKeys::EncryptAndMac(cipher, mac), block_len, tag_len } => {
            assert_eq!(cipher.algo.name, "aes128-ctr");
            assert_eq!(cipher.key, derived(b'C', 16, &secret, &hash, &hash));
            assert_eq!(cipher.iv, derived(b'A', 16, &secret, &hash, &hash));
            assert_eq!(mac.algo.name, "hmac-sha2-256");
            assert_eq!(mac.key, derived(b'E', 32, &secret, &hash, &hash));
            assert_eq!(*block_len, 16);
            assert_eq!(*tag_len, 32);
        },
        _ => panic!("the keys for sending are not installed"),
    }

    assert_eq!(pump(&mut st, 5, Polled::Pending), Ok(Pump::Pending));
    assert!(matches!(recv_packet(&mut st, Bytes::from_static(&[21])), Ok(Received::Nothing)));
    match st.decrypt() {
        (PacketKeys::EncryptAndMac(cipher, mac), 16, 32) => {
            assert_eq!(cipher.key, derived(b'D', 16, &secret, &hash, &hash));
            assert_eq!(cipher.iv, derived(b'B', 16, &secret, &hash, &hash));
            assert_eq!(mac.key, derived(b'F', 32, &secret, &hash, &hash));
        },
        _ => panic!("the keys for receiving are not installed"),
    }
    assert_eq!(pump(&mut st, 5, Polled::Pending), Ok(Pump::Progress));
    assert_eq!(pump(&mut st, 9, Polled::Pending), Ok(Pump::Progress));
    assert!(is_ready(&st));
    let last_kex = st.last_kex();
    assert!(last_kex.done);
    assert_eq!(last_kex.instant, 9);
    assert_eq!(pump(&mut st, 9, Polled::Pending), Ok(Pump::Pending));
}

#[test]
fn handshake_to_authenticated() {
    let mut st = connected();
    assert!(!is_authenticated(&st));
    let method = AuthMethod::Nothing { username: b"u".to_vec() };
    assert_eq!(start_method(&mut st, method), Ok(None));
    assert!(take_wakeup(&mut st));

    assert_eq!(pump_auth(&mut st), Ok(Pump::Progress));
    let mut service_request = vec![5u8];
    service_request.extend(string(b"ssh-userauth"));
    assert_eq!(payloads(&drain(&mut st)), vec![service_request]);
    assert_eq!(pump_auth(&mut st), Ok(Pump::Pending));

    let mut accept = vec![6u8];
    accept.extend(string(b"ssh-userauth"));
    assert!(matches!(recv_packet(&mut st, Bytes::from(accept)), Ok(Received::Nothing)));
    assert_eq!(pump_auth(&mut st), Ok(Pump::Progress));
    let mut request = vec![50u8];
    request.extend(string(b"u"));
    request.extend(string(b"ssh-connection"));
    request.extend(string(b"none"));
    assert_eq!(payloads(&drain(&mut st)), vec![request]);

    match recv_packet(&mut st, Bytes::from_static(&[52])) {
        Ok(Received::Auth(AuthEvent::Outcome(AuthOutcome::Success))) => {},
        _ => panic!("authentication did not succeed"),
    }
    assert!(is_authenticated(&st));

    // once authenticated, every attempt succeeds at once
    let again = AuthMethod::Nothing { username: b"v".to_vec() };
    assert_eq!(start_method(&mut st, again), Ok(Some(AuthOutcome::Success)));
    assert!(is_authenticated(&st));
}

#[test]
fn no_authentication_request_before_new_keys() {
    let mut st = new_client(ClientConfig::default(), 0).unwrap();
    recv_ident(&mut st, b"SSH-2.0-server").unwrap();
    let method = AuthMethod::Nothing { username: b"u".to_vec() };
    assert_eq!(start_method(&mut st, method), Ok(None));
    assert_eq!(pump_auth(&mut st), Ok(Pump::Pending));
    assert!(drain(&mut st).is_empty());
    exchange_keys(&mut st, 0, &[1u8; 32]);
    drain(&mut st);
    assert_eq!(pump_auth(&mut st), Ok(Pump::Progress));
    assert_eq!(payloads(&drain(&mut st))[0][0], 5);
}

#[test]
fn second_attempt_is_aborted_while_first_is_open() {
    let mut st = connected();
    let first = AuthMethod::Nothing { username: b"u".to_vec() };
    assert_eq!(start_method(&mut st, first), Ok(None));
    let second = AuthMethod::Nothing { username: b"v".to_vec() };
    assert_eq!(start_method(&mut st, second), Err(Error::AuthAborted));
}

#[test]
fn password_change() {
    let mut st = connected();
    let method = AuthMethod::Password {
        username: b"u".to_vec(),
        password: b"old".to_vec(),
        new_password: Some(b"new".to_vec()),
    };
    assert_eq!(start_method(&mut st, method), Ok(None));
    assert_eq!(pump_auth(&mut st), Ok(Pump::Progress));
    let mut accept = vec![6u8];
    accept.extend(string(b"ssh-userauth"));
    recv_packet(&mut st, Bytes::from(accept)).ok().unwrap();
    assert_eq!(pump_auth(&mut st), Ok(Pump::Progress));
    let mut request = vec![50u8];
    request.extend(string(b"u"));
    request.extend(string(b"ssh-connection"));
    request.extend(string(b"password"));
    request.push(1);
    request.extend(string(b"old"));
    request.extend(string(b"new"));
    assert_eq!(payloads(&drain(&mut st))[1], request);

    let mut change = vec![60u8];
    change.extend(string(b"choose a better one"));
    change.extend(string(b"en"));
    match recv_packet(&mut st, Bytes::from(change)) {
        Ok(Received::Auth(AuthEvent::Outcome(AuthOutcome::ChangePassword { prompt }))) => {
            assert_eq!(prompt, b"choose a better one".to_vec());
        },
        _ => panic!("no request to change the password"),
    }
    assert!(!is_authenticated(&st));

    // a second attempt with the new password succeeds
    let method = AuthMethod::Password {
        username: b"u".to_vec(),
        password: b"new".to_vec(),
        new_password: None,
    };
    assert_eq!(start_method(&mut st, method), Ok(None));
    assert_eq!(pump_auth(&mut st), Ok(Pump::Progress));
    let mut request = vec![50u8];
    request.extend(string(b"u"));
    request.extend(string(b"ssh-connection"));
    request.extend(string(b"password"));
    request.push(0);
    request.extend(string(b"new"));
    assert_eq!(payloads(&drain(&mut st)), vec![request]);
    match recv_packet(&mut st, Bytes::from_static(&[52])) {
        Ok(Received::Auth(AuthEvent::Outcome(AuthOutcome::Success))) => {},
        _ => panic!("authentication did not succeed"),
    }
    assert!(is_authenticated(&st));
}

#[test]
fn authentication_failure_names_methods() {
    let mut st = connected();
    let method = AuthMethod::Nothing { username: b"u".to_vec() };
    start_method(&mut st, method).unwrap();
    pump_auth(&mut st).unwrap();
    let mut accept = vec![6u8];
    accept.extend(string(b"ssh-userauth"));
    recv_packet(&mut st, Bytes::from(accept)).ok().unwrap();
    pump_auth(&mut st).unwrap();
    let mut failure = vec![51u8];
    failure.extend(string(b"publickey,password"));
    failure.push(0);
    match recv_packet(&mut st, Bytes::from(failure)) {
        Ok(Received::Auth(AuthEvent::Outcome(AuthOutcome::Failure {
            methods_can_continue,
            partial_success,
        }))) => {
            assert_eq!(methods_can_continue, vec![b"publickey".to_vec(), b"password".to_vec()]);
            assert!(!partial_success);
        },
        _ => panic!("no failure"),
    }
    assert!(!is_authenticated(&st));
}

#[test]
fn banner_is_shown_and_changes_nothing() {
    let mut st = connected();
    let mut banner = vec![53u8];
    banner.extend(string(b"welcome"));
    banner.extend(string(b""));
    match recv_packet(&mut st, Bytes::from(banner)) {
        Ok(Received::Auth(AuthEvent::Banner(message))) => assert_eq!(message, b"welcome".to_vec()),
        _ => panic!("no banner"),
    }
    assert!(!is_authenticated(&st));
    assert!(matches!(
        recv_packet(&mut st, Bytes::from_static(&[52])),
        Err(Error::Protocol(_))
    ));
}

#[test]
fn host_key_rejection() {
    let mut st = new_client(ClientConfig::default(), 0).unwrap();
    recv_ident(&mut st, b"SSH-2.0-server").unwrap();
    pump(&mut st, 0, Polled::Pending).unwrap();
    recv_packet(&mut st, server_kex_init()).ok().unwrap();
    pump(&mut st, 0, Polled::Pending).unwrap();
    pump(&mut st, 0, Polled::KexOutput(kex_output(&[3u8; 32]))).unwrap();
    assert_eq!(pump(&mut st, 0, Polled::Pending), Ok(Pump::Progress));
    assert!(take_event(&mut st).is_some());
    assert_eq!(pump(&mut st, 0, Polled::Rejected), Err(Error::PubkeyAccept));
    assert_eq!(st.negotiate_state(), State::AcceptPubkey);
}

#[test]
fn pubkey_event_waits_for_a_free_place() {
    let mut st = new_client(ClientConfig::default(), 0).unwrap();
    recv_ident(&mut st, b"SSH-2.0-server").unwrap();
    exchange_keys(&mut st, 0, &[1u8; 32]);
    start_kex(&mut st, None);
    pump(&mut st, 0, Polled::Pending).unwrap();
    recv_packet(&mut st, server_kex_init()).ok().unwrap();
    pump(&mut st, 0, Polled::Pending).unwrap();
    pump(&mut st, 0, Polled::KexOutput(kex_output(&[2u8; 32]))).unwrap();
    assert_eq!(pump(&mut st, 0, Polled::Pending), Ok(Pump::Progress));
    // the event is not taken: a third exchange cannot hand over its event
    assert_eq!(pump(&mut st, 0, Polled::Accepted), Ok(Pump::Progress));
    pump(&mut st, 0, Polled::Pending).unwrap();
    recv_packet(&mut st, Bytes::from_static(&[21])).ok().unwrap();
    pump(&mut st, 0, Polled::Pending).unwrap();
    pump(&mut st, 0, Polled::Pending).unwrap();
    start_kex(&mut st, None);
    pump(&mut st, 0, Polled::Pending).unwrap();
    recv_packet(&mut st, server_kex_init()).ok().unwrap();
    pump(&mut st, 0, Polled::Pending).unwrap();
    pump(&mut st, 0, Polled::KexOutput(kex_output(&[4u8; 32]))).unwrap();
    assert_eq!(pump(&mut st, 0, Polled::Accepted), Ok(Pump::Pending));
    assert!(take_event(&mut st).is_some());
    assert_eq!(pump(&mut st, 0, Polled::Accepted), Ok(Pump::Progress));
    assert_eq!(st.negotiate_state(), State::AcceptPubkey);
    assert_eq!(pump(&mut st, 0, Polled::Accepted), Ok(Pump::Progress));
    assert_eq!(st.negotiate_state(), State::NewKeys);
}

#[test]
fn algorithm_mismatch() {
    let mut st = new_client(ClientConfig::default(), 0).unwrap();
    recv_ident(&mut st, b"SSH-2.0-server").unwrap();
    let theirs = kex_init("curve25519-sha256", "ssh-ed25519", "aes256-cbc", "hmac-sha2-256", false);
    recv_packet(&mut st, theirs).ok().unwrap();
    match pump(&mut st, 0, Polled::Pending) {
        Err(Error::AlgoNegotiate(e)) => {
            assert_eq!(e.algo_name, "cipher client-to-server");
            assert_eq!(
                e.our_algos,
                vec![b"aes128-ctr".to_vec(), b"aes192-ctr".to_vec(), b"aes256-ctr".to_vec()]
            );
            assert_eq!(e.their_algos, vec![b"aes256-cbc".to_vec()]);
        },
        other => panic!("unexpected {:?}", other),
    }
}

#[test]
fn compatible_config_accepts_outdated_server() {
    let mut st = new_client(ClientConfig::default_compatible_insecure(), 0).unwrap();
    recv_ident(&mut st, b"SSH-2.0-server").unwrap();
    let theirs = kex_init("diffie-hellman-group14-sha1", "ssh-rsa", "aes256-cbc", "hmac-sha1", false);
    recv_packet(&mut st, theirs).ok().unwrap();
    assert_eq!(pump(&mut st, 0, Polled::Pending), Ok(Pump::Progress));
    let algos = st.algos().unwrap();
    assert_eq!(algos.kex.name, "diffie-hellman-group14-sha1");
    assert_eq!(algos.server_pubkey.name, "ssh-rsa");
    assert_eq!(algos.cipher_cts.name, "aes256-cbc");
    assert_eq!(algos.mac_stc.name, "hmac-sha1");
    // no key of that kind can be decoded here
    let mut output = kex_output(&[1u8; 20]);
    let mut rsa_key = string(b"ssh-rsa");
    rsa_key.extend(string(&[1, 0, 1]));
    rsa_key.extend(string(&[0x00, 0xc3, 0x55]));
    output.server_pubkey = Bytes::from(rsa_key);
    assert_eq!(
        pump(&mut st, 0, Polled::KexOutput(output)),
        Err(Error::Decode("unknown public key format"))
    );
}

#[test]
fn client_preference_decides() {
    let mut st = new_client(ClientConfig::default(), 0).unwrap();
    recv_ident(&mut st, b"SSH-2.0-server").unwrap();
    let theirs = kex_init(
        "curve25519-sha256@libssh.org,curve25519-sha256",
        "ssh-rsa,ssh-ed25519",
        "aes256-ctr,aes192-ctr",
        "hmac-sha1,hmac-sha2-256",
        false,
    );
    recv_packet(&mut st, theirs).ok().unwrap();
    assert_eq!(pump(&mut st, 0, Polled::Pending), Ok(Pump::Progress));
    let algos = st.algos().unwrap();
    assert_eq!(algos.kex.name, "curve25519-sha256");
    assert_eq!(algos.cipher_cts.name, "aes192-ctr");
    assert_eq!(algos.cipher_stc.name, "aes192-ctr");
    assert_eq!(algos.mac_cts.name, "hmac-sha2-256");
}

#[test]
fn aead_cipher_needs_no_mac() {
    let aead = CipherAlgo {
        name: "aes128-gcm@openssh.com",
        key_len: 16,
        iv_len: 12,
        block_len: 16,
        variant: CipherAlgoVariant::Aead { tag_len: 16 },
    };
    let config = ClientConfig::default().with(|c: &mut ClientConfig| {
        c.cipher_algos.insert(0, aead);
    });
    let mut st = new_client(config, 0).unwrap();
    recv_ident(&mut st, b"SSH-2.0-server").unwrap();
    // the server offers no MAC that we know
    let theirs = kex_init("curve25519-sha256", "ssh-ed25519", "aes128-gcm@openssh.com", "umac-64", false);
    recv_packet(&mut st, theirs).ok().unwrap();
    assert_eq!(pump(&mut st, 0, Polled::Pending), Ok(Pump::Progress));
    let algos = st.algos().unwrap();
    assert_eq!(algos.cipher_cts.name, "aes128-gcm@openssh.com");
    assert_eq!(algos.mac_cts, makiko::mac::invalid());
    assert_eq!(algos.mac_stc, makiko::mac::invalid());

    let hash = [0x33u8; 32];
    pump(&mut st, 0, Polled::KexOutput(kex_output(&hash))).unwrap();
    pump(&mut st, 0, Polled::Pending).unwrap();
    take_event(&mut st);
    pump(&mut st, 0, Polled::Accepted).unwrap();
    pump(&mut st, 0, Polled::Pending).unwrap();
    let sent = drain(&mut st);
    match sent.last() {
        Some(Outbound::NewKeys { keys: PacketKeys::Aead(cipher), block_len: 16, tag_len: 16 }) => {
            assert_eq!(cipher.key.len(), 16);
            assert_eq!(cipher.iv, derived(b'A', 12, &[0x00, 0x9a, 0x01, 0x02], &hash, &hash));
        },
        _ => panic!("the keys for sending are not installed"),
    }
}

#[test]
fn kex_init_with_guessed_packet_is_rejected() {
    let mut st = new_client(ClientConfig::default(), 0).unwrap();
    recv_ident(&mut st, b"SSH-2.0-server").unwrap();
    let theirs = kex_init("curve25519-sha256", "ssh-ed25519", "aes128-ctr", "hmac-sha2-256", true);
    assert_eq!(
        recv_packet(&mut st, theirs).err(),
        Some(Error::Protocol("received SSH_MSG_KEXINIT with first_kex_packet_follows set"))
    );
}

#[test]
fn kex_init_during_negotiation_is_rejected() {
    let mut st = new_client(ClientConfig::default(), 0).unwrap();
    recv_ident(&mut st, b"SSH-2.0-server").unwrap();
    recv_packet(&mut st, server_kex_init()).ok().unwrap();
    assert_eq!(
        recv_packet(&mut st, server_kex_init()).err(),
        Some(Error::Protocol("received SSH_MSG_KEXINIT during negotiation"))
    );
}

#[test]
fn kex_init_before_ident_is_rejected() {
    let mut st = new_client(ClientConfig::default(), 0).unwrap();
    assert!(matches!(recv_packet(&mut st, server_kex_init()), Err(Error::Protocol(_))));
    assert_eq!(recv_ident(&mut st, b"SSH-2.0-server"), Ok(()));
    assert!(matches!(recv_ident(&mut st, b"SSH-2.0-other"), Err(Error::Protocol(_))));
}

#[test]
fn truncated_kex_init_is_rejected() {
    let mut st = new_client(ClientConfig::default(), 0).unwrap();
    recv_ident(&mut st, b"SSH-2.0-server").unwrap();
    let whole = server_kex_init();
    let cut = whole.slice(0..whole.len() - 1);
    assert_eq!(
        recv_packet(&mut st, cut).err(),
        Some(Error::Decode("unexpected end of packet"))
    );
    assert_eq!(st.negotiate_state(), State::KexInit);
}

#[test]
fn new_keys_out_of_place_is_rejected() {
    let mut st = new_client(ClientConfig::default(), 0).unwrap();
    recv_ident(&mut st, b"SSH-2.0-server").unwrap();
    let new_keys = Bytes::from_static(&[21]);
    assert_eq!(
        recv_packet(&mut st, new_keys.clone()).err(),
        Some(Error::Protocol("received unexpected SSH_MSG_NEWKEYS"))
    );
    pump(&mut st, 0, Polled::Pending).unwrap();
    recv_packet(&mut st, server_kex_init()).ok().unwrap();
    pump(&mut st, 0, Polled::Pending).unwrap();
    // the exchange has no outcome yet
    assert_eq!(
        recv_packet(&mut st, new_keys.clone()).err(),
        Some(Error::Protocol("received unexpected SSH_MSG_NEWKEYS"))
    );
    pump(&mut st, 0, Polled::KexOutput(kex_output(&[5u8; 32]))).unwrap();
    assert!(recv_packet(&mut st, new_keys.clone()).is_ok());
    assert_eq!(
        recv_packet(&mut st, new_keys).err(),
        Some(Error::Protocol("received SSH_MSG_NEWKEYS twice"))
    );
}

#[test]
fn forged_signature_is_rejected() {
    let mut st = new_client(ClientConfig::default(), 0).unwrap();
    recv_ident(&mut st, b"SSH-2.0-server").unwrap();
    pump(&mut st, 0, Polled::Pending).unwrap();
    recv_packet(&mut st, server_kex_init()).ok().unwrap();
    pump(&mut st, 0, Polled::Pending).unwrap();
    let mut output = kex_output(&[6u8; 32]);
    output.server_exchange_hash_sign = Bytes::from(signature_blob(&[7u8; 32]));
    assert_eq!(pump(&mut st, 0, Polled::KexOutput(output)), Err(Error::Signature));
    assert_eq!(st.negotiate_state(), State::Kex);
}

#[test]
fn kex_message_without_exchange_is_rejected() {
    let mut st = new_client(ClientConfig::default(), 0).unwrap();
    recv_ident(&mut st, b"SSH-2.0-server").unwrap();
    assert_eq!(
        recv_packet(&mut st, Bytes::from_static(&[31, 1, 2])).err(),
        Some(Error::Protocol("received unexpected kex message"))
    );
    pump(&mut st, 0, Polled::Pending).unwrap();
    recv_packet(&mut st, server_kex_init()).ok().unwrap();
    pump(&mut st, 0, Polled::Pending).unwrap();
    match recv_packet(&mut st, Bytes::from_static(&[31, 1, 2])) {
        Ok(Received::Kex(algo, 31, rest)) => {
            assert_eq!(algo.name, "curve25519-sha256");
            assert_eq!(rest.remaining_len(), 2);
            assert_eq!(rest.as_original_bytes(), &[31, 1, 2]);
        },
        _ => panic!("the message was not handed to the exchange"),
    }
}

#[test]
fn rekey_after_bytes() {
    let config = ClientConfig::default().with(|c: &mut ClientConfig| {
        c.rekey_after_bytes = 1000;
    });
    let mut st = new_client(config, 0).unwrap();
    recv_ident(&mut st, b"SSH-2.0-server").unwrap();
    exchange_keys(&mut st, 0, &[1u8; 32]);
    count_sent(&mut st, 5000);
    // not authenticated: no new exchange
    assert_eq!(pump(&mut st, 0, Polled::Pending), Ok(Pump::Pending));

    let mut st = authenticated();
    let limit = st.config().rekey_after_bytes as usize;
    let sent_before = st.last_kex().sent_bytes as usize;
    assert_eq!(sent_before, 0);
    count_sent(&mut st, limit);
    assert_eq!(pump(&mut st, 1_000, Polled::Pending), Ok(Pump::Pending));
    count_sent(&mut st, 1);
    assert_eq!(pump(&mut st, 1_000, Polled::Pending), Ok(Pump::Progress));
    assert_eq!(st.negotiate_state(), State::KexInit);
    assert!(take_wakeup(&mut st));
    exchange_keys(&mut st, 1_000, &[0x44u8; 32]);
    assert_eq!(st.last_kex().sent_bytes as usize, limit + 1);
    assert_eq!(pump(&mut st, 1_000, Polled::Pending), Ok(Pump::Pending));

    // received octets count as well
    let mut seq = 0;
    for _ in 0..2 {
        seq = count_recvd(&mut st, limit / 2 + 1);
    }
    assert_eq!(seq, 1);
    assert_eq!(pump(&mut st, 1_000, Polled::Pending), Ok(Pump::Progress));
    assert_eq!(st.negotiate_state(), State::KexInit);
}

#[test]
fn rekey_after_duration() {
    let mut st = authenticated();
    let limit = st.config().rekey_after_duration;
    assert_eq!(limit, 3_600_000);
    assert_eq!(pump(&mut st, 1_000 + limit, Polled::Pending), Ok(Pump::Pending));
    assert_eq!(pump(&mut st, 1_000 + limit + 1, Polled::Pending), Ok(Pump::Progress));
    assert_eq!(st.negotiate_state(), State::KexInit);
    // a clock that runs backwards starts nothing
    let mut st = authenticated();
    assert_eq!(pump(&mut st, 0, Polled::Pending), Ok(Pump::Pending));
}

#[test]
fn session_id_survives_rekeys() {
    let mut st = authenticated();
    let session_id = st.session_id().unwrap().to_vec();
    assert_eq!(session_id, vec![0x11u8; 32]);
    for round in 0..16u8 {
        start_kex(&mut st, Some(round as u64));
        exchange_keys(&mut st, 2_000, &[round; 32]);
        assert_eq!(st.session_id(), Some(&session_id[..]));
        assert_eq!(
            take_finished(&mut st),
            vec![Finished { waiter: round as u64, outcome: KexOutcome::Done }]
        );
        assert!(is_authenticated(&st));
    }
    // the keys of a later exchange are derived with the first session identifier
    start_kex(&mut st, None);
    let hash = [0x55u8; 32];
    pump(&mut st, 0, Polled::Pending).unwrap();
    recv_packet(&mut st, server_kex_init()).ok().unwrap();
    pump(&mut st, 0, Polled::Pending).unwrap();
    pump(&mut st, 0, Polled::KexOutput(kex_output(&hash))).unwrap();
    pump(&mut st, 0, Polled::Pending).unwrap();
    take_event(&mut st);
    pump(&mut st, 0, Polled::Accepted).unwrap();
    drain(&mut st);
    pump(&mut st, 0, Polled::Pending).unwrap();
    match drain(&mut st).last() {
        Some(Outbound::NewKeys { keys: PacketKeys::EncryptAndMac(cipher, _), .. }) => {
            assert_eq!(
                cipher.key,
                derived(b'C', 16, &[0x00, 0x9a, 0x01, 0x02], &hash, &session_id)
            );
        },
        _ => panic!("the keys for sending are not installed"),
    }
}

#[test]
fn rejected_rekey_goes_on_with_old_keys() {
    let mut st = authenticated();
    start_kex(&mut st, Some(4));
    start_kex(&mut st, Some(5));
    assert_eq!(pump(&mut st, 0, Polled::Pending), Ok(Pump::Pending));
    let seq = match &drain(&mut st)[0] {
        Outbound::Packet { seq, .. } => *seq,
        _ => panic!("no packet was sent"),
    };
    // about another packet: not ours
    let mut other = vec![3u8];
    other.extend_from_slice(&(seq + 1).to_be_bytes());
    assert!(matches!(recv_packet(&mut st, Bytes::from(other)), Ok(Received::Nothing)));
    assert_eq!(st.negotiate_state(), State::KexInit);
    let mut unimplemented = vec![3u8];
    unimplemented.extend_from_slice(&seq.to_be_bytes());
    assert!(matches!(recv_packet(&mut st, Bytes::from(unimplemented)), Ok(Received::Nothing)));
    assert_eq!(st.negotiate_state(), State::Idle);
    assert_eq!(
        take_finished(&mut st),
        vec![
            Finished { waiter: 4, outcome: KexOutcome::RekeyRejected },
            Finished { waiter: 5, outcome: KexOutcome::RekeyRejected },
        ]
    );
}

#[test]
fn rejected_first_kex_init_is_fatal() {
    let mut st = new_client(ClientConfig::default(), 0).unwrap();
    recv_ident(&mut st, b"SSH-2.0-server").unwrap();
    pump(&mut st, 0, Polled::Pending).unwrap();
    let unimplemented = Bytes::from_static(&[3, 0, 0, 0, 0]);
    assert_eq!(
        recv_packet(&mut st, unimplemented.clone()).err(),
        Some(Error::Protocol("peer rejected our first SSH_MSG_KEX_INIT"))
    );
    recv_packet(&mut st, server_kex_init()).ok().unwrap();
    assert_eq!(
        recv_packet(&mut st, unimplemented).err(),
        Some(Error::Protocol(
            "peer rejected our SSH_MSG_KEX_INIT, but they sent their SSH_MSG_KEX_INIT"
        ))
    );
}

#[test]
fn ext_info_follows_first_new_keys_only() {
    let mut st = new_client(ClientConfig::default(), 0).unwrap();
    recv_ident(&mut st, b"SSH-2.0-server").unwrap();
    let theirs = kex_init("curve25519-sha256,ext-info-s", "ssh-ed25519", "aes128-ctr", "hmac-sha2-256", false);
    for round in 0..2 {
        if round == 1 {
            start_kex(&mut st, None);
        }
        pump(&mut st, 0, Polled::Pending).unwrap();
        recv_packet(&mut st, theirs.clone()).ok().unwrap();
        pump(&mut st, 0, Polled::Pending).unwrap();
        pump(&mut st, 0, Polled::KexOutput(kex_output(&[8u8; 32]))).unwrap();
        pump(&mut st, 0, Polled::Pending).unwrap();
        take_event(&mut st);
        pump(&mut st, 0, Polled::Accepted).unwrap();
        drain(&mut st);
        pump(&mut st, 0, Polled::Pending).unwrap();
        let sent = drain(&mut st);
        if round == 0 {
            assert_eq!(sent.len(), 3);
            assert!(matches!(sent[1], Outbound::NewKeys { .. }));
            assert_eq!(payloads(&sent), vec![vec![21], vec![7, 0, 0, 0, 0]]);
        } else {
            assert_eq!(payloads(&sent), vec![vec![21]]);
        }
        recv_packet(&mut st, Bytes::from_static(&[21])).ok().unwrap();
        pump(&mut st, 0, Polled::Pending).unwrap();
        pump(&mut st, 0, Polled::Pending).unwrap();
    }
}

#[test]
fn disconnect_ends_the_connection() {
    let mut st = connected();
    let mut payload = vec![1u8];
    payload.extend_from_slice(&11u32.to_be_bytes());
    payload.extend(string(b"bye"));
    payload.extend(string(b"en"));
    match recv_packet(&mut st, Bytes::from(payload)) {
        Err(Error::Disconnect(e)) => {
            assert_eq!(e.reason_code, 11);
            assert_eq!(e.description, b"bye".to_vec());
        },
        _ => panic!("no disconnect"),
    }
}

#[test]
fn transport_messages_are_routed() {
    let mut st = connected();
    assert!(matches!(recv_packet(&mut st, Bytes::from_static(&[2, 9, 9])), Ok(Received::Nothing)));
    let mut debug = vec![4u8, 1];
    debug.extend(string(b"note"));
    debug.extend(string(b""));
    match recv_packet(&mut st, Bytes::from(debug)) {
        Ok(Received::Debug(message)) => assert_eq!(message, b"note".to_vec()),
        _ => panic!("no debug message"),
    }
    let mut global = vec![80u8];
    global.extend(string(b"hostkeys-00@openssh.com"));
    global.push(0);
    global.extend_from_slice(&[1, 2, 3]);
    match recv_packet(&mut st, Bytes::from(global)) {
        Ok(Received::GlobalRequest { name, want_reply, payload }) => {
            assert_eq!(name, b"hostkeys-00@openssh.com".to_vec());
            assert!(!want_reply);
            assert_eq!(payload, vec![1, 2, 3]);
        },
        _ => panic!("no global request"),
    }
    assert_eq!(
        recv_packet(&mut st, Bytes::from_static(&[200])).err(),
        Some(Error::PacketNotImplemented(200))
    );
    assert_eq!(
        recv_packet(&mut st, Bytes::from_static(&[22])).err(),
        Some(Error::PacketNotImplemented(22))
    );
    assert_eq!(
        recv_packet(&mut st, Bytes::new()).err(),
        Some(Error::Decode("unexpected end of packet"))
    );
}

#[test]
fn channel_open_waits_for_authentication() {
    let mut st = connected();
    let open = open_request(b"session".to_vec(), Bytes::from_static(&[0xaa]), 1);
    open_channel(&mut st, open).unwrap();
    assert!(take_wakeup(&mut st));
    assert_eq!(pump_conn(&mut st), Ok(Pump::Pending));
    assert!(drain(&mut st).is_empty());

    let mut st = authenticated();
    let first = open_request(b"session".to_vec(), Bytes::from_static(&[0xaa]), 1);
    let second = open_request(b"direct-tcpip".to_vec(), Bytes::new(), 2);
    open_channel(&mut st, first).unwrap();
    open_channel(&mut st, second).unwrap();
    assert_eq!(pump_conn(&mut st), Ok(Pump::Progress));
    assert_eq!(pump_conn(&mut st), Ok(Pump::Progress));
    assert_eq!(pump_conn(&mut st), Ok(Pump::Pending));
    let mut expected_first = vec![90u8];
    expected_first.extend(string(b"session"));
    expected_first.extend_from_slice(&0u32.to_be_bytes());
    expected_first.extend_from_slice(&100_000u32.to_be_bytes());
    expected_first.extend_from_slice(&1_000_000u32.to_be_bytes());
    expected_first.push(0xaa);
    let mut expected_second = vec![90u8];
    expected_second.extend(string(b"direct-tcpip"));
    expected_second.extend_from_slice(&1u32.to_be_bytes());
    expected_second.extend_from_slice(&100_000u32.to_be_bytes());
    expected_second.extend_from_slice(&1_000_000u32.to_be_bytes());
    assert_eq!(payloads(&drain(&mut st)), vec![expected_first, expected_second]);

    // the second is refused, the first confirmed
    let mut failure = vec![92u8];
    failure.extend_from_slice(&1u32.to_be_bytes());
    failure.extend_from_slice(&2u32.to_be_bytes());
    failure.extend(string(b"no"));
    failure.extend(string(b""));
    match recv_packet(&mut st, Bytes::from(failure.clone())) {
        Ok(Received::OpenFailed(failed)) => {
            assert_eq!(failed.confirmed_tx, 2);
            assert_eq!(failed.reason_code, 2);
            assert_eq!(failed.description, b"no".to_vec());
        },
        _ => panic!("no failure"),
    }
    assert!(matches!(recv_packet(&mut st, Bytes::from(failure)), Err(Error::Protocol(_))));
    assert_eq!(st.channel_count(), 0);
    let mut confirm = vec![91u8];
    confirm.extend_from_slice(&0u32.to_be_bytes());
    confirm.extend_from_slice(&9u32.to_be_bytes());
    confirm.extend_from_slice(&64u32.to_be_bytes());
    confirm.extend_from_slice(&32u32.to_be_bytes());
    confirm.extend_from_slice(&[0xbb, 0xcc]);
    match recv_packet(&mut st, Bytes::from(confirm.clone())) {
        Ok(Received::ChannelOpened(opened)) => {
            assert_eq!((opened.confirmed_tx, opened.our_id), (1, 0));
            assert_eq!(opened.confirm_payload, vec![0xbb, 0xcc]);
        },
        _ => panic!("no confirmation"),
    }
    assert!(matches!(recv_packet(&mut st, Bytes::from(confirm)), Err(Error::Protocol(_))));
    assert_eq!(st.channel_count(), 1);
    let channel = st.channel(0).unwrap();
    assert_eq!(channel.their_id(), 9);
    assert_eq!(channel.send_window(), 64);
    assert_eq!(channel.recv_window(), 100_000);
}

#[test]
fn outbound_data_respects_window_and_packet_size() {
    let mut st = with_channel();
    let data: Vec<u8> = (0..1500u32).map(|i| i as u8).collect();
    // window 1000, largest packet 300: three packets of 300 go out, the
    // fourth does not fit in what is left of the window
    assert_eq!(send_channel_data(&mut st, 0, &data), Ok(900));
    let sent = payloads(&drain(&mut st));
    assert_eq!(sent.len(), 3);
    for (i, packet) in sent.iter().enumerate() {
        let mut expected = vec![94u8];
        expected.extend_from_slice(&5u32.to_be_bytes());
        expected.extend(string(&data[i * 300..(i + 1) * 300]));
        assert_eq!(packet, &expected);
    }
    assert_eq!(st.channel(0).unwrap().send_window(), 100);
    assert_eq!(send_channel_data(&mut st, 0, &data[900..]), Ok(0));
    assert_eq!(send_channel_data(&mut st, 0, &data[900..950]), Ok(50));
    assert_eq!(st.channel(0).unwrap().send_window(), 50);

    let mut adjust = vec![93u8];
    adjust.extend_from_slice(&0u32.to_be_bytes());
    adjust.extend_from_slice(&600u32.to_be_bytes());
    assert!(matches!(recv_packet(&mut st, Bytes::from(adjust)), Ok(Received::WindowAdjusted(0))));
    assert_eq!(st.channel(0).unwrap().send_window(), 650);
    assert_eq!(send_channel_data(&mut st, 0, &data[950..]), Ok(550));
    assert_eq!(st.channel(0).unwrap().send_window(), 100);
    assert_eq!(send_channel_data(&mut st, 7, &data), Err(Error::ChannelClosed));

    let mut overflow = vec![93u8];
    overflow.extend_from_slice(&0u32.to_be_bytes());
    overflow.extend_from_slice(&u32::MAX.to_be_bytes());
    assert!(matches!(recv_packet(&mut st, Bytes::from(overflow)), Err(Error::Protocol(_))));
}

#[test]
fn channel_data_echo() {
    let mut st = with_channel();
    let data: Vec<u8> = (0..100_000u32).map(|i| (i % 251) as u8).collect();
    let mut received = Vec::new();
    let mut adjustments = 0;
    let mut window_left: u64 = 100_000;
    for chunk in data.chunks(30_000) {
        let mut packet = vec![94u8];
        packet.extend_from_slice(&0u32.to_be_bytes());
        packet.extend(string(chunk));
        match recv_packet(&mut st, Bytes::from(packet)) {
            Ok(Received::ChannelData(event)) => {
                assert_eq!(event.our_id, 0);
                assert_eq!(event.data_type_code, None);
                received.extend_from_slice(&event.data);
            },
            _ => panic!("no data"),
        }
        window_left -= chunk.len() as u64;
        for payload in payloads(&drain(&mut st)) {
            assert_eq!(payload[0], 93);
            assert_eq!(payload[1..5], 5u32.to_be_bytes());
            let n = u32::from_be_bytes([payload[5], payload[6], payload[7], payload[8]]) as u64;
            assert_eq!(window_left + n, 100_000);
            window_left = 100_000;
            adjustments += 1;
        }
        assert_eq!(st.channel(0).unwrap().recv_window() as u64, window_left);
    }
    assert_eq!(received, data);
    assert!(adjustments >= 1);
    assert_eq!(adjustments, 1);
}

#[test]
fn inbound_data_beyond_window_is_rejected() {
    let mut st = with_channel();
    let mut packet = vec![94u8];
    packet.extend_from_slice(&0u32.to_be_bytes());
    packet.extend(string(&vec![0u8; 100_001]));
    assert_eq!(
        recv_packet(&mut st, Bytes::from(packet)).err(),
        Some(Error::Protocol(WINDOW_EXCEEDED))
    );
    // 40000 fit, and 40000 more fit too; then the window is filled up
    for _ in 0..2 {
        let mut packet = vec![95u8];
        packet.extend_from_slice(&0u32.to_be_bytes());
        packet.extend_from_slice(&1u32.to_be_bytes());
        packet.extend(string(&vec![1u8; 40_000]));
        match recv_packet(&mut st, Bytes::from(packet)) {
            Ok(Received::ChannelData(event)) => assert_eq!(event.data_type_code, Some(1)),
            _ => panic!("no data"),
        }
    }
    assert_eq!(st.channel(0).unwrap().recv_window(), 100_000);
    let mut unknown = vec![94u8];
    unknown.extend_from_slice(&3u32.to_be_bytes());
    unknown.extend(string(b"x"));
    assert!(matches!(recv_packet(&mut st, Bytes::from(unknown)), Err(Error::Protocol(_))));
    // more than the largest packet that we take
    let mut packet = vec![94u8];
    packet.extend_from_slice(&0u32.to_be_bytes());
    packet.extend(string(&vec![0u8; 1_000_001]));
    assert_eq!(
        recv_packet(&mut st, Bytes::from(packet)).err(),
        Some(Error::Protocol(DATA_TOO_LONG))
    );
    assert_eq!(st.channel(0).unwrap().recv_window(), 100_000);
}

#[test]
fn channel_lives_until_both_sides_close() {
    let mut st = with_channel();
    assert_eq!(send_channel_end(&mut st, 0, false), Ok(()));
    assert_eq!(send_channel_end(&mut st, 0, false), Ok(()));
    assert_eq!(payloads(&drain(&mut st)), vec![vec![96, 0, 0, 0, 5]]);
    assert_eq!(send_channel_data(&mut st, 0, b"late"), Ok(0));
    // the peer may still send
    let mut packet = vec![94u8];
    packet.extend_from_slice(&0u32.to_be_bytes());
    packet.extend(string(b"more"));
    assert!(matches!(recv_packet(&mut st, Bytes::from(packet.clone())), Ok(Received::ChannelData(_))));
    assert!(matches!(
        recv_packet(&mut st, Bytes::from_static(&[96, 0, 0, 0, 0])),
        Ok(Received::ChannelEof(0))
    ));
    assert_eq!(st.channel_count(), 1);
    assert!(matches!(recv_packet(&mut st, Bytes::from(packet)), Err(Error::Protocol(_))));
    assert!(matches!(
        recv_packet(&mut st, Bytes::from_static(&[96, 0, 0, 0, 0])),
        Err(Error::Protocol(_))
    ));

    assert_eq!(send_channel_end(&mut st, 0, true), Ok(()));
    assert_eq!(payloads(&drain(&mut st)), vec![vec![97, 0, 0, 0, 5]]);
    assert_eq!(st.channel_count(), 1);
    assert!(matches!(
        recv_packet(&mut st, Bytes::from_static(&[97, 0, 0, 0, 0])),
        Ok(Received::ChannelClosed(0))
    ));
    assert!(drain(&mut st).is_empty());
    assert_eq!(st.channel_count(), 0);
    assert!(st.channel(0).is_none());
    assert_eq!(send_channel_end(&mut st, 0, true), Err(Error::ChannelClosed));
}

#[test]
fn close_from_peer_is_answered() {
    let mut st = with_channel();
    assert!(matches!(
        recv_packet(&mut st, Bytes::from_static(&[97, 0, 0, 0, 0])),
        Ok(Received::ChannelClosed(0))
    ));
    assert_eq!(payloads(&drain(&mut st)), vec![vec![97, 0, 0, 0, 5]]);
    assert_eq!(st.channel_count(), 0);
}

#[test]
fn channel_requests_are_answered_in_order() {
    let mut st = with_channel();
    send_channel_request(&mut st, 0, b"pty-req", true, &[1, 2], 10).unwrap();
    send_channel_request(&mut st, 0, b"env", false, &[], 11).unwrap();
    send_channel_request(&mut st, 0, b"exec", true, b"ls", 12).unwrap();
    let sent = payloads(&drain(&mut st));
    let mut expected = vec![98u8];
    expected.extend_from_slice(&5u32.to_be_bytes());
    expected.extend(string(b"pty-req"));
    expected.push(1);
    expected.extend_from_slice(&[1, 2]);
    assert_eq!(sent[0], expected);
    assert_eq!(sent.len(), 3);

    match recv_packet(&mut st, Bytes::from_static(&[100, 0, 0, 0, 0])) {
        Ok(Received::RequestReply(reply)) => {
            assert_eq!((reply.our_id, reply.waiter, reply.success), (0, 10, false));
        },
        _ => panic!("no reply"),
    }
    match recv_packet(&mut st, Bytes::from_static(&[99, 0, 0, 0, 0])) {
        Ok(Received::RequestReply(reply)) => {
            assert_eq!((reply.our_id, reply.waiter, reply.success), (0, 12, true));
        },
        _ => panic!("no reply"),
    }
    assert!(matches!(
        recv_packet(&mut st, Bytes::from_static(&[99, 0, 0, 0, 0])),
        Err(Error::Protocol(_))
    ));
}


#[test]
fn our_kex_init_is_read_as_it_was_written() {
    let mut ours = new_client(ClientConfig::default_compatible_insecure(), 0).unwrap();
    assert_eq!(pump(&mut ours, 0, Polled::Pending), Ok(Pump::Pending));
    let written = payloads(&drain(&mut ours)).remove(0);

    // a client with other preferences reads it and chooses from its lists
    let config = ClientConfig::default().with(|c: &mut ClientConfig| {
        c.kex_algos.reverse();
        c.cipher_algos.reverse();
    });
    let mut theirs = new_client(config, 0).unwrap();
    recv_ident(&mut theirs, b"SSH-2.0-peer").unwrap();
    assert!(matches!(recv_packet(&mut theirs, Bytes::from(written)), Ok(Received::Nothing)));
    assert_eq!(pump(&mut theirs, 0, Polled::Pending), Ok(Pump::Progress));
    let algos = theirs.algos().unwrap();
    assert_eq!(algos.kex.name, "curve25519-sha256@libssh.org");
    assert_eq!(algos.cipher_stc.name, "aes256-ctr");
    assert_eq!(algos.mac_cts.name, "hmac-sha2-256");
}
