use backbone_events::b64::{b64url_decode, b64url_encode};
use backbone_events::capability::{
    ics_capability_claims, sign, ticket_report_capability_claims, CapabilityClaims, ICS_TOKEN_TTL_SECS, PURPOSE_ICS,
    PURPOSE_TICKET_REPORT,
};
use backbone_events::error::EventError;

const EVENT: u128 = 0x67e55044_10b1_426f_9247_bb680e5fe0c8;
const EVENT_TEXT: &str = "67e55044-10b1-426f-9247-bb680e5fe0c8";
const PAYLOAD: &str =
    "{\"purpose\":\"event-ics-access\",\"exp\":2000000000,\"data\":[\"67e55044-10b1-426f-9247-bb680e5fe0c8\"]}";
const PAYLOAD_B64: &str = "eyJwdXJwb3NlIjoiZXZlbnQtaWNzLWFjY2VzcyIsImV4cCI6MjAwMDAwMDAwMCwiZGF0YSI6WyI2N2U1NTA0NC0xMGIxLTQyNmYtOTI0Ny1iYjY4MGU1ZmUwYzgiXX0";
const SIG_B64: &str = "fu0IM9--D6kuui2k6L5qbjkMM7rL1DgPRhjoohLn6bE";

fn ics_claims() -> CapabilityClaims {
    CapabilityClaims { purpose: PURPOSE_ICS.to_string(), exp: 2_000_000_000, data: vec![EVENT_TEXT.to_string()] }
}

#[test]
fn b64url_encodes_known_vectors() {
    assert_eq!(b64url_encode(b"hello"), "aGVsbG8");
    assert_eq!(b64url_encode(&[0xfb, 0xff]), "-_8");
    assert_eq!(b64url_encode(b""), "");
    assert_eq!(b64url_encode(b"a"), "YQ");
    assert_eq!(b64url_encode(b"ab"), "YWI");
    assert_eq!(b64url_encode(b"abc"), "YWJj");
}

#[test]
fn b64url_decodes_known_vectors() {
    assert_eq!(b64url_decode("aGVsbG8"), Some(b"hello".to_vec()));
    assert_eq!(b64url_decode("-_8"), Some(vec![0xfb, 0xff]));
    assert_eq!(b64url_decode(""), Some(vec![]));
    assert_eq!(b64url_decode("YWJj"), Some(b"abc".to_vec()));
}

#[test]
fn b64url_decode_refuses_outside_alphabet() {
    assert_eq!(b64url_decode("a*"), None);
    assert_eq!(b64url_decode("aGVs=bG8"), None);
    assert_eq!(b64url_decode("+/8"), None);
    assert_eq!(b64url_decode("é"), None);
}

#[test]
fn b64url_decode_drops_trailing_bits() {
    // One dangling character carries six bits: no whole byte.
    assert_eq!(b64url_decode("Y"), Some(vec![]));
    assert_eq!(b64url_decode("YQ"), Some(b"a".to_vec()));
}

#[test]
fn b64url_round_trips() {
    for n in 0..40usize {
        let bytes: Vec<u8> = (0..n).map(|i| (i * 37 + 11) as u8).collect();
        let text = b64url_encode(&bytes);
        assert!(!text.contains('.'));
        assert_eq!(b64url_decode(&text), Some(bytes));
    }
}

#[test]
fn sign_refuses_empty_secret() {
    assert!(matches!(sign("", PURPOSE_ICS, "x"), Err(EventError::EventCapabilitySecretNotConfigured)));
}

#[test]
fn sign_is_hmac_sha256_over_context_purpose_payload() {
    let sig = sign("s3cret", PURPOSE_ICS, PAYLOAD_B64).unwrap();
    assert_eq!(sig.len(), 32);
    assert_eq!(b64url_encode(&sig), SIG_B64);
    let other = sign("s3cret", PURPOSE_TICKET_REPORT, PAYLOAD_B64).unwrap();
    assert_ne!(sig, other);
}

#[test]
fn mint_frames_version_payload_signature() {
    let token = ics_claims().mint("s3cret", PAYLOAD.as_bytes()).unwrap();
    assert_eq!(token, format!("v1.{PAYLOAD_B64}.{SIG_B64}"));
}

#[test]
fn mint_refuses_empty_secret() {
    assert!(matches!(
        ics_claims().mint("", PAYLOAD.as_bytes()),
        Err(EventError::EventCapabilitySecretNotConfigured)
    ));
}

#[test]
fn minted_token_verifies_to_its_payload() {
    let token = ics_claims().mint("s3cret", PAYLOAD.as_bytes()).unwrap();
    let payload = CapabilityClaims::verify_envelope("s3cret", PURPOSE_ICS, &token).unwrap();
    assert_eq!(payload, PAYLOAD.as_bytes().to_vec());
}

#[test]
fn verify_refuses_wrong_secret_purpose_or_tampering() {
    let token = ics_claims().mint("s3cret", PAYLOAD.as_bytes()).unwrap();
    assert!(matches!(CapabilityClaims::verify_envelope("other", PURPOSE_ICS, &token), Err(EventError::EventNotPublished)));
    assert!(matches!(
        CapabilityClaims::verify_envelope("s3cret", PURPOSE_TICKET_REPORT, &token),
        Err(EventError::EventNotPublished)
    ));
    let tampered = format!("v1.{PAYLOAD_B64}.{}", "A".repeat(SIG_B64.len()));
    assert!(matches!(CapabilityClaims::verify_envelope("s3cret", PURPOSE_ICS, &tampered), Err(EventError::EventNotPublished)));
    let short = format!("v1.{PAYLOAD_B64}.{}", &SIG_B64[..10]);
    assert!(matches!(CapabilityClaims::verify_envelope("s3cret", PURPOSE_ICS, &short), Err(EventError::EventNotPublished)));
}

#[test]
fn verify_refuses_malformed_envelopes() {
    for bad in ["", "v1", "v1..", "v2.abc.def", &format!("v1.{PAYLOAD_B64}"), &format!("v1..{SIG_B64}")] {
        assert!(matches!(CapabilityClaims::verify_envelope("s3cret", PURPOSE_ICS, bad), Err(EventError::EventNotPublished)));
    }
    assert!(matches!(
        CapabilityClaims::verify_envelope("", PURPOSE_ICS, "v1.a.b"),
        Err(EventError::EventCapabilitySecretNotConfigured)
    ));
}

#[test]
fn accept_checks_purpose_and_expiry() {
    assert!(matches!(CapabilityClaims::accept(None, PURPOSE_ICS, 0), Err(EventError::EventNotPublished)));
    let ok = CapabilityClaims::accept(Some(ics_claims()), PURPOSE_ICS, 1_999_999_999).unwrap();
    assert_eq!(ok.exp, 2_000_000_000);
    assert!(matches!(CapabilityClaims::accept(Some(ics_claims()), PURPOSE_ICS, 2_000_000_000), Err(EventError::EventNotPublished)));
    assert!(matches!(
        CapabilityClaims::accept(Some(ics_claims()), PURPOSE_TICKET_REPORT, 0),
        Err(EventError::EventNotPublished)
    ));
    let never = CapabilityClaims { purpose: PURPOSE_TICKET_REPORT.to_string(), exp: 0, data: vec![] };
    assert!(CapabilityClaims::accept(Some(never), PURPOSE_TICKET_REPORT, i64::MAX).is_ok());
}

#[test]
fn ics_claims_pin_event_and_slot() {
    let c = ics_capability_claims(EVENT, None, 1_000, ICS_TOKEN_TTL_SECS);
    assert_eq!(c.purpose, PURPOSE_ICS);
    assert_eq!(c.exp, 1_000 + 86_400);
    assert_eq!(c.data, vec![EVENT_TEXT.to_string()]);
    assert_eq!(c.pinned_event().unwrap(), EVENT);
    assert_eq!(c.pinned_slot().unwrap(), None);
    let slot: u128 = 0x0000_0000_0000_4000_8000_0000_0000_0001;
    let c = ics_capability_claims(EVENT, Some(slot), 5, 10);
    assert_eq!(c.exp, 15);
    assert_eq!(c.data[1], "00000000-0000-4000-8000-000000000001");
    assert_eq!(c.pinned_slot().unwrap(), Some(slot));
}

#[test]
fn ticket_claims_sort_registrations_and_never_expire() {
    let a: u128 = 0xffff_0000_0000_4000_8000_0000_0000_0000;
    let b: u128 = 0x0000_0000_0000_4000_8000_0000_0000_0002;
    let c = ticket_report_capability_claims(EVENT, &[a, b]);
    assert_eq!(c.purpose, PURPOSE_TICKET_REPORT);
    assert_eq!(c.exp, 0);
    assert_eq!(
        c.data,
        vec![
            EVENT_TEXT.to_string(),
            "00000000-0000-4000-8000-000000000002".to_string(),
            "ffff0000-0000-4000-8000-000000000000".to_string(),
        ]
    );
    assert_eq!(c.pinned_event().unwrap(), EVENT);
    assert_eq!(c.pinned_registrations(), vec![b, a]);
}

#[test]
fn pinned_arms_refuse_or_skip_unparseable_ids() {
    let c = CapabilityClaims { purpose: PURPOSE_ICS.to_string(), exp: 0, data: vec!["nope".to_string()] };
    assert!(matches!(c.pinned_event(), Err(EventError::EventNotPublished)));
    let c = CapabilityClaims { purpose: PURPOSE_ICS.to_string(), exp: 0, data: vec![] };
    assert!(matches!(c.pinned_event(), Err(EventError::EventNotPublished)));
    assert!(c.pinned_registrations().is_empty());
    let c = CapabilityClaims {
        purpose: PURPOSE_ICS.to_string(),
        exp: 0,
        data: vec![EVENT_TEXT.to_string(), "bad".to_string(), EVENT_TEXT.to_string()],
    };
    assert!(matches!(c.pinned_slot(), Err(EventError::EventNotPublished)));
    assert_eq!(c.pinned_registrations(), vec![EVENT]);
}

#[test]
fn ticket_claims_ignore_the_order_of_the_ids() {
    let ids = [7u128, 0xffff_0000_0000_4000_8000_0000_0000_0000, 3, 7];
    let mut rev = ids;
    rev.reverse();
    assert_eq!(ticket_report_capability_claims(EVENT, &ids).data, ticket_report_capability_claims(EVENT, &rev).data);
    let token1 = ticket_report_capability_claims(EVENT, &ids).mint("s3cret", b"x").unwrap();
    let token2 = ticket_report_capability_claims(EVENT, &rev).mint("s3cret", b"x").unwrap();
    assert_eq!(token1, token2);
}
