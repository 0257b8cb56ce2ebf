use makiko::client::channel::ChannelState;
use makiko::client::client_state::new_client;
use makiko::client::config::ClientConfig;
use makiko::error::Error;
use makiko::kex::KexAlgo;

#[test]
fn default_config_lists_the_default_algorithms() {
    let config = ClientConfig::default();
    let kex: Vec<&str> = config.kex_algos.iter().map(|a| a.name).collect();
    assert_eq!(kex, vec!["curve25519-sha256", "curve25519-sha256@libssh.org"]);
    let pubkey: Vec<&str> = config.server_pubkey_algos.iter().map(|a| a.name).collect();
    assert_eq!(pubkey, vec!["ssh-ed25519"]);
    let cipher: Vec<&str> = config.cipher_algos.iter().map(|a| a.name).collect();
    assert_eq!(cipher, vec!["aes128-ctr", "aes192-ctr", "aes256-ctr"]);
    let mac: Vec<&str> = config.mac_algos.iter().map(|a| a.name).collect();
    assert_eq!(mac, vec!["hmac-sha2-256"]);
    assert_eq!(config.rekey_after_bytes, 1 << 30);
    assert_eq!(config.rekey_after_duration, 60 * 60 * 1000);
}

#[test]
fn compatible_config_adds_outdated_algorithms_at_the_end() {
    let config = ClientConfig::default_compatible_insecure();
    let kex: Vec<&str> = config.kex_algos.iter().map(|a| a.name).collect();
    assert_eq!(
        kex,
        vec!["curve25519-sha256", "curve25519-sha256@libssh.org", "diffie-hellman-group14-sha1"]
    );
    let pubkey: Vec<&str> = config.server_pubkey_algos.iter().map(|a| a.name).collect();
    assert_eq!(pubkey, vec!["ssh-ed25519", "ssh-rsa"]);
    let cipher: Vec<&str> = config.cipher_algos.iter().map(|a| a.name).collect();
    assert_eq!(cipher, vec!["aes128-ctr", "aes192-ctr", "aes256-ctr", "aes256-cbc"]);
    let mac: Vec<&str> = config.mac_algos.iter().map(|a| a.name).collect();
    assert_eq!(mac, vec!["hmac-sha2-256", "hmac-sha1"]);
    let default = ClientConfig::default();
    assert_eq!(config.rekey_after_bytes, default.rekey_after_bytes);
    assert_eq!(config.rekey_after_duration, default.rekey_after_duration);
}

#[test]
fn with_applies_the_closure() {
    let config = ClientConfig::default().with(|c: &mut ClientConfig| {
        c.kex_algos.truncate(1);
        c.rekey_after_bytes = 64 * 1024;
    });
    assert_eq!(config.kex_algos.len(), 1);
    assert_eq!(config.kex_algos[0].name, "curve25519-sha256");
    assert_eq!(config.rekey_after_bytes, 65536);
    assert_eq!(config.cipher_algos.len(), 3);
    let same = ClientConfig::default().with(|_: &mut ClientConfig| {});
    assert_eq!(same.kex_algos, ClientConfig::default().kex_algos);
}

#[test]
fn algorithm_descriptors_hold_their_sizes() {
    assert_eq!(makiko::cipher::aes128_ctr().key_len, 16);
    assert_eq!(makiko::cipher::aes192_ctr().key_len, 24);
    assert_eq!(makiko::cipher::aes256_ctr().key_len, 32);
    assert_eq!(makiko::cipher::aes256_cbc().key_len, 32);
    for cipher in ClientConfig::default_compatible_insecure().cipher_algos {
        assert_eq!((cipher.iv_len, cipher.block_len), (16, 16));
        assert!(!cipher.variant.is_aead());
    }
    assert_eq!(makiko::mac::hmac_sha2_256().tag_len, 32);
    assert_eq!(makiko::mac::hmac_sha2_256().key_len, 32);
    assert_eq!(makiko::mac::hmac_sha1().tag_len, 20);
    assert_eq!(makiko::mac::invalid().name, "");
    assert_eq!(makiko::kex::curve25519_sha256().hash, makiko::hash::HashAlgo::Sha256);
    assert_eq!(makiko::kex::diffie_hellman_group14_sha1().hash, makiko::hash::HashAlgo::Sha1);
}

#[test]
fn names_must_fit_on_the_wire() {
    assert!(new_client(ClientConfig::default_compatible_insecure(), 0).is_ok());
    let empty = ClientConfig::default().with(|c: &mut ClientConfig| {
        c.kex_algos.clear();
        c.mac_algos.clear();
    });
    assert!(new_client(empty, 0).is_ok());
    if usize::BITS > 32 {
        // a list of names as long as a name-list can never be
        let long: &'static str = Box::leak("x".repeat(1 << 20).into_boxed_str());
        let algo = KexAlgo { name: long, hash: makiko::hash::HashAlgo::Sha256 };
        let config = ClientConfig::default().with(|c: &mut ClientConfig| {
            c.kex_algos = vec![algo; 1 << 12];
        });
        assert_eq!(
            new_client(config, 0).err(),
            Some(Error::Config("the names of the algorithms are too long"))
        );
    }
}

#[test]
fn window_of_a_channel_is_kept() {
    let mut channel = ChannelState::new(1, 2, 1000, 400, 50, 20);
    assert_eq!((channel.our_id(), channel.their_id()), (1, 2));
    // packets of 20 at most, a window of 50
    assert_eq!(channel.send_data(100), 20);
    assert_eq!(channel.send_data(80), 20);
    assert_eq!(channel.send_data(60), 0);
    assert_eq!(channel.send_data(10), 10);
    assert_eq!(channel.send_data(0), 0);
    assert_eq!(channel.send_window(), 0);
    assert_eq!(channel.send_data(1), 0);
    assert_eq!(channel.recv_window_adjust(30), Ok(()));
    assert_eq!(channel.send_data(25), 20);
    assert_eq!(channel.send_window(), 10);
    assert_eq!(channel.recv_window_adjust(u32::MAX - 9), Err(Error::Protocol(
        "received a window adjustment that is too large"
    )));
    assert_eq!(channel.recv_window_adjust(u32::MAX - 10), Ok(()));
    assert_eq!(channel.send_window(), u32::MAX);

    // our window: filled up once half of it is used
    assert_eq!(channel.recv_data(400), Ok(None));
    assert_eq!(channel.recv_window(), 600);
    assert_eq!(channel.recv_data(99), Ok(None));
    assert_eq!(channel.recv_data(1), Ok(Some(500)));
    assert_eq!(channel.recv_window(), 1000);
    assert_eq!(channel.recv_data(401), Err(Error::Protocol(
        "received channel data that exceeds the maximum packet size"
    )));
    assert_eq!(channel.recv_data(400), Ok(None));
    assert_eq!(channel.recv_data(400), Ok(Some(800)));
    assert_eq!(channel.recv_data(0), Ok(None));

    let mut narrow = ChannelState::new(1, 2, 10, 400, 50, 20);
    assert_eq!(narrow.recv_data(11), Err(Error::Protocol(
        "received channel data that exceeds the window"
    )));
    assert_eq!(narrow.recv_data(4), Ok(None));
    assert_eq!(narrow.recv_data(7), Err(Error::Protocol(
        "received channel data that exceeds the window"
    )));
    assert_eq!(narrow.recv_data(6), Ok(Some(10)));
}

#[test]
fn ends_of_a_channel_are_kept() {
    let mut channel = ChannelState::new(0, 0, 100, 100, 100, 100);
    assert!(!channel.is_closed());
    assert!(channel.send_eof());
    assert!(!channel.send_eof());
    assert_eq!(channel.send_data(10), 0);
    assert_eq!(channel.recv_eof(), Ok(()));
    assert!(channel.recv_eof().is_err());
    assert!(channel.recv_data(1).is_err());
    assert!(!channel.is_closed());
    assert!(channel.send_close());
    assert!(!channel.send_close());
    assert!(!channel.is_closed());
    assert_eq!(channel.recv_close(), Ok(()));
    assert!(channel.recv_close().is_err());
    assert!(channel.is_closed());

    let mut channel = ChannelState::new(0, 0, 100, 100, 100, 100);
    assert!(channel.send_close());
    assert!(!channel.send_eof());
    assert!(channel.recv_data(1).is_err());
    channel.send_request(3);
    channel.send_request(4);
    assert_eq!(channel.recv_reply(), Ok(3));
    assert_eq!(channel.recv_reply(), Ok(4));
    assert!(channel.recv_reply().is_err());
}
