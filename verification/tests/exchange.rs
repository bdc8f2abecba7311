use oqs_kex_rpc::alg::{KexAlg, RandAlg};
use oqs_kex_rpc::client::OqsKexClient;
use oqs_kex_rpc::error::KexError;
use oqs_kex_rpc::msg::{AliceMsg, BobMsg, SharedKey};
use oqs_kex_rpc::session::Reducer;

/// How the simulated transport behaves for one round trip.
enum Transport {
    /// The peer answers every entry in order with the matching tag.
    Correct,
    /// The peer swaps the first two entries of an otherwise valid reply.
    Swap,
    /// The peer drops the last entry of the reply.
    DropLast,
    /// The peer appends a spurious extra entry to the reply.
    Extra,
    /// The connection fails outright; no reply at all.
    Fail,
}

fn simulate_peer(alice_msgs: &[AliceMsg], transport: &Transport) -> Option<Vec<BobMsg>> {
    if let Transport::Fail = transport {
        return None;
    }
    let mut bob: Vec<BobMsg> = alice_msgs
        .iter()
        .map(|m| {
            let mut d = m.data.clone();
            d.push(0x42);
            BobMsg::new(m.algorithm(), d)
        })
        .collect();
    match transport {
        Transport::Swap => {
            if bob.len() >= 2 {
                bob.swap(0, 1);
            }
        }
        Transport::DropLast => {
            bob.pop();
        }
        Transport::Extra => {
            bob.push(BobMsg::new(KexAlg::Hqc128, vec![0]));
        }
        _ => {}
    }
    Some(bob)
}

/// Drives one full exchange against a simulated exchange primitive (fresh,
/// distinct ephemeral material per entry) and a simulated transport.
fn run_exchange(
    client: &OqsKexClient,
    algs: Vec<KexAlg>,
    transport: Transport,
) -> Result<Vec<SharedKey>, KexError> {
    let mut session = client.start_session(algs);
    let mut counter: u8 = 0;
    while session.next_algorithm().is_some() {
        counter += 1;
        let public = vec![counter, 0x50];
        let secret = vec![counter, 0x53];
        session.add_initiator(public, secret);
    }
    assert!(session.is_complete());
    let alice_msgs = session.alice_msgs();
    let bob_msgs = match simulate_peer(&alice_msgs, &transport) {
        Some(m) => m,
        None => return Err(KexError::RpcError),
    };
    let mut reducer = Reducer::new(session, bob_msgs)?;
    while let Some(p) = reducer.next_exchange() {
        // Simulated finalization: the key is a function of the entry's
        // secret and the peer's message, so distinct secrets give distinct
        // keys.
        let mut key = p.secret_data.clone();
        key.extend_from_slice(&p.peer_data);
        reducer.add_key(key);
    }
    match reducer.finish() {
        Some(keys) => Ok(keys),
        None => Err(KexError::OqsError),
    }
}

#[test]
fn kex_returns_one_key_per_algorithm() {
    let client = OqsKexClient::new();
    let algs = vec![KexAlg::Kyber512, KexAlg::MlKem768, KexAlg::FrodoKem640Shake];
    let keys = run_exchange(&client, algs.clone(), Transport::Correct).unwrap();
    assert_eq!(keys.len(), algs.len());
    for (key, alg) in keys.iter().zip(algs.iter()) {
        assert_eq!(key.algorithm(), *alg);
    }
}

#[test]
fn empty_exchange_returns_empty() {
    let client = OqsKexClient::new();
    let keys = run_exchange(&client, vec![], Transport::Correct).unwrap();
    assert!(keys.is_empty());
}

#[test]
fn duplicate_algorithms_give_independent_keys() {
    let client = OqsKexClient::new();
    let algs = vec![KexAlg::Kyber512, KexAlg::MlKem768, KexAlg::Kyber512];
    let keys = run_exchange(&client, algs, Transport::Correct).unwrap();
    assert_eq!(keys.len(), 3);
    assert_eq!(keys[0].algorithm(), KexAlg::Kyber512);
    assert_eq!(keys[1].algorithm(), KexAlg::MlKem768);
    assert_eq!(keys[2].algorithm(), KexAlg::Kyber512);
    assert_ne!(keys[0].data, keys[2].data);
}

#[test]
fn short_reply_rejected() {
    let client = OqsKexClient::new();
    let algs = vec![KexAlg::Kyber512, KexAlg::MlKem768];
    let r = run_exchange(&client, algs, Transport::DropLast);
    assert_eq!(r, Err(KexError::InvalidResponse));
}

#[test]
fn long_reply_rejected() {
    let client = OqsKexClient::new();
    let algs = vec![KexAlg::Kyber512, KexAlg::MlKem768];
    let r = run_exchange(&client, algs, Transport::Extra);
    assert_eq!(r, Err(KexError::InvalidResponse));
}

#[test]
fn swapped_reply_rejected() {
    let client = OqsKexClient::new();
    let algs = vec![KexAlg::Kyber512, KexAlg::MlKem768];
    let r = run_exchange(&client, algs, Transport::Swap);
    assert_eq!(r, Err(KexError::InvalidResponse));
}

#[test]
fn transport_failure_reported() {
    let client = OqsKexClient::new();
    let algs = vec![KexAlg::Kyber512];
    let r = run_exchange(&client, algs, Transport::Fail);
    assert_eq!(r, Err(KexError::RpcError));
}

#[test]
fn set_rand_binds_new_sessions() {
    let mut client = OqsKexClient::new();
    assert_eq!(client.rand(), RandAlg::System);
    client.set_rand(RandAlg::OpenSsl);
    assert_eq!(client.rand(), RandAlg::OpenSsl);
    let session = client.start_session(vec![KexAlg::Kyber512]);
    assert_eq!(session.rand(), RandAlg::OpenSsl);
}
