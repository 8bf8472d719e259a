use shuttle::gateway::certificate::{
    judge, pem_bundle, read_certificate_end, time_left, Malformed, Span, Verdict,
};
use shuttle::gateway::domain::{
    served_domains, Action, Certificate, CertificateRequest, CustomDomain, Event, Stage,
};
use shuttle::gateway::error::{Error, ErrorKind};
use shuttle::gateway::own_certificate::{Abort, Event as OwnEvent, Renewal};
use shuttle::timestamp::Timestamp;

/// A certificate that ends on 22 October 2126 at 23:20:07.
const FAR: &str = "-----BEGIN CERTIFICATE-----\n\
MIIBiDCCAS+gAwIBAgIUK3hYLlXLiCqayYaT2CHbHSQUfuswCgYIKoZIzj0EAwIw\n\
GTEXMBUGA1UEAwwObmVvLnRoZS5tYXRyaXgwIBcNMjYxMTE1MjMyMDA3WhgPMjEy\n\
NjEwMjIyMzIwMDdaMBkxFzAVBgNVBAMMDm5lby50aGUubWF0cml4MFkwEwYHKoZI\n\
zj0CAQYIKoZIzj0DAQcDQgAENIxitYIAJhs73HWj50tU+1fHO9NmBsDZEiyXfVrR\n\
t8U1ePrgXQWOSB+HyL2ctuoXOfxGAT5SEY2krTvfvbCliaNTMFEwHQYDVR0OBBYE\n\
FOzt7R6KPGgg0aSSVVZCI+snXeK4MB8GA1UdIwQYMBaAFOzt7R6KPGgg0aSSVVZC\n\
I+snXeK4MA8GA1UdEwEB/wQFMAMBAf8wCgYIKoZIzj0EAwIDRwAwRAIga2EQiGWH\n\
h/54rUiCYc0Ke1PsBns3wlunQBcN7d2pbwsCICl5rTZrcFRxOlDK0rN2hTyXyiu8\n\
3tzdBs8qt3IkSThZ\n\
-----END CERTIFICATE-----\n\
";

/// A certificate that was valid for a single day.
const NEAR: &str = "-----BEGIN CERTIFICATE-----\n\
MIIBiDCCAS2gAwIBAgIUDVuInZCLpkFX77TpUsItHSIFp54wCgYIKoZIzj0EAwIw\n\
GTEXMBUGA1UEAwwObmVvLnRoZS5tYXRyaXgwHhcNMjYxMTE1MjMyNDI4WhcNMjYx\n\
MTE2MjMyNDI4WjAZMRcwFQYDVQQDDA5uZW8udGhlLm1hdHJpeDBZMBMGByqGSM49\n\
AgEGCCqGSM49AwEHA0IABH7WhkJZcHbFwGhJ+prOXTIqt6rHKR0Rfm4o8mxUabYh\n\
lK4HkMLa9swAAT0AjkrkQgYJQDLpwFn5JojD7xsnAtejUzBRMB0GA1UdDgQWBBTr\n\
L8dbqvJRQTzqOWlmOHwBsLBvwjAfBgNVHSMEGDAWgBTrL8dbqvJRQTzqOWlmOHwB\n\
sLBvwjAPBgNVHRMBAf8EBTADAQH/MAoGCCqGSM49BAMCA0kAMEYCIQD3dQysgys7\n\
9td18ZwSgRzBBEtPpea9zPw3ULA/ApEB4gIhAP8/UEzecs+PKX5MP+Q9vzjzS4/K\n\
GF0s8R2l1+XHZssy\n\
-----END CERTIFICATE-----\n\
";

const FAR_END: i64 = 4_948_384_807;

const DAY: i64 = 86_400;

fn at(secs: i64) -> Timestamp {
    Timestamp { secs, nanos: 0 }
}

fn certificate(chain: &str) -> Certificate {
    Certificate { chain: chain.to_owned(), private_key: "dummy private key".to_owned() }
}

fn internal(text: &str) -> Error {
    Error::custom(ErrorKind::Internal, text)
}

#[test]
fn end_of_a_certificate() {
    assert_eq!(read_certificate_end(FAR).unwrap(), at(FAR_END));
}

#[test]
fn text_without_certificate() {
    assert!(matches!(read_certificate_end("dummy certificate"), Err(Malformed::Pem(_))));
    assert!(matches!(
        read_certificate_end("-----BEGIN CERTIFICATE-----\nAAAA\n-----END CERTIFICATE-----\n"),
        Err(Malformed::X509(_))
    ));
}

#[test]
fn time_left_borrows_a_second() {
    let end = Timestamp { secs: 10, nanos: 1 };
    let now = Timestamp { secs: 8, nanos: 2 };
    assert_eq!(time_left(end, now), Some(Span { secs: 1, nanos: 999_999_999 }));
    assert_eq!(time_left(now, end), None);
    assert_eq!(time_left(end, end), None);
}

#[test]
fn renewed_in_the_last_thirty_days() {
    let end = at(1000 * DAY);
    assert_eq!(judge(end, at(1000 * DAY)), Verdict::Renew);
    assert_eq!(judge(end, at(1001 * DAY)), Verdict::Renew);
    assert_eq!(judge(end, at(970 * DAY)), Verdict::Renew);
    assert_eq!(judge(end, at(969 * DAY + 1)), Verdict::Renew);
    assert_eq!(judge(end, at(969 * DAY)), Verdict::Keep(Span { secs: 31 * DAY, nanos: 0 }));
}

#[test]
fn due_stays_due() {
    let end = at(1000 * DAY);
    let mut was_due = false;
    for day in 900..1100 {
        let due = judge(end, at(day * DAY)) == Verdict::Renew;
        assert!(due || !was_due);
        was_due = due;
    }
    assert!(was_due);
}

#[test]
fn length_of_time_as_text() {
    assert_eq!(Span { secs: 31 * DAY, nanos: 0 }.text(), "31d");
    assert_eq!(Span { secs: 32 * DAY + 3_661, nanos: 5_000_000 }.text(), "32d1h1m1s5ms");
    assert_eq!(Span { secs: 31 * DAY + 5, nanos: 0 }.whole_days(), 31);
}

#[test]
fn key_follows_certificate() {
    assert_eq!(pem_bundle("chain", "key"), b"chainkey".to_vec());
}

#[test]
fn known_domains_are_served() {
    let served = served_domains(vec![
        CustomDomain {
            fqdn: "neo.the.matrix".to_owned(),
            certificate: "dummy certificate".to_owned(),
            private_key: "dummy private key".to_owned(),
        },
        CustomDomain {
            fqdn: "trinity.the.matrix".to_owned(),
            certificate: "c".to_owned(),
            private_key: "k".to_owned(),
        },
    ]);
    assert_eq!(served.len(), 2);
    assert_eq!(served[0].fqdn, "neo.the.matrix");
    assert_eq!(served[0].pem, b"dummy certificatedummy private key".to_vec());
    assert_eq!(served[1].fqdn, "trinity.the.matrix");
    assert_eq!(served[1].pem, b"ck".to_vec());
}

#[test]
fn invalid_domain_is_refused() {
    for request in [
        CertificateRequest::create("matrix", "neo..matrix"),
        CertificateRequest::renew("matrix", "n@o.matrix"),
    ] {
        let error = request.unwrap_err();
        assert_eq!(error.kind, ErrorKind::InvalidCustomDomain);
        assert_eq!(error.source, None);
    }
}

#[test]
fn domain_is_written_without_trailing_dot() {
    let request = CertificateRequest::create("matrix", "neo.the.matrix.").unwrap();
    assert_eq!(request.fqdn, "neo.the.matrix");
    assert_eq!(request.project_name, "matrix");
}

#[test]
fn first_certificate_of_a_domain() {
    let request = CertificateRequest::create("matrix", "neo.the.matrix").unwrap();
    assert_eq!(request.action(), Action::CreateDomain);
    let request = request.advance(Event::Created(Ok(Certificate {
        chain: "chain".to_owned(),
        private_key: "key".to_owned(),
    })));
    assert_eq!(request.action(), Action::ServePem);
    match &request.stage {
        Stage::Serve { pem, .. } => assert_eq!(pem, &b"chainkey".to_vec()),
        _ => unreachable!(),
    }
    let request = request.advance(Event::Served(Ok(())));
    assert_eq!(request.action(), Action::Finish);
    assert_eq!(
        request.finish().unwrap(),
        "\"New certificate created for matrix project.\""
    );
}

#[test]
fn first_certificate_that_cannot_be_made() {
    let request = CertificateRequest::create("matrix", "neo.the.matrix").unwrap();
    let request = request.advance(Event::Created(Err(internal("no"))));
    assert_eq!(request.finish().unwrap_err().source, Some("no".to_owned()));
}

#[test]
fn fresh_certificate_is_kept() {
    let request = CertificateRequest::renew("matrix", "neo.the.matrix").unwrap();
    assert_eq!(request.action(), Action::FindDomain);
    let request =
        request.advance_at(Event::Found(Ok(certificate(FAR))), at(FAR_END - 31 * DAY - 3600));
    assert_eq!(request.action(), Action::Finish);
    assert_eq!(
        request.finish().unwrap(),
        "\"Certificate renewal skipped, matrix project certificate still valid for 31d1h days.\""
    );
}

#[test]
fn fresh_certificate_is_kept_today() {
    let request = CertificateRequest::renew("matrix", "neo.the.matrix").unwrap();
    let request = request.advance(Event::Found(Ok(certificate(FAR))));
    assert!(request.finish().unwrap().starts_with("\"Certificate renewal skipped, matrix"));
}

#[test]
fn due_certificate_is_replaced() {
    let request = CertificateRequest::renew("matrix", "neo.the.matrix").unwrap();
    let request = request.advance(Event::Found(Ok(certificate(NEAR))));
    assert_eq!(request.action(), Action::IssueCertificate);
    let request = request.advance(Event::Issued(Ok(certificate("new "))));
    assert_eq!(request.action(), Action::SaveDomain);
    match &request.stage {
        Stage::Save(saved) => assert_eq!(saved, &certificate("new ")),
        _ => unreachable!(),
    }
    let request = request.advance(Event::Saved(Ok(())));
    assert_eq!(request.action(), Action::ServePem);
    match &request.stage {
        Stage::Serve { pem, .. } => assert_eq!(pem, &b"new dummy private key".to_vec()),
        _ => unreachable!(),
    }
    let request = request.advance(Event::Served(Ok(())));
    assert_eq!(request.finish().unwrap(), "\"Certificate renewed for matrix project.\"");
}

#[test]
fn renewal_stops_at_the_first_failure() {
    let start = || CertificateRequest::renew("matrix", "neo.the.matrix").unwrap();

    let request = start().advance(Event::Found(Err(Error::from_kind(
        ErrorKind::CustomDomainNotFound,
    ))));
    assert_eq!(request.finish().unwrap_err().kind, ErrorKind::CustomDomainNotFound);

    let due = || start().advance(Event::Found(Ok(certificate(NEAR))));
    let request = due().advance(Event::Issued(Err("refused".to_owned())));
    let error = request.finish().unwrap_err();
    assert_eq!(error.kind, ErrorKind::Internal);
    assert_eq!(error.source, Some("refused".to_owned()));

    let issued = || due().advance(Event::Issued(Ok(certificate("new"))));
    let request = issued().advance(Event::Saved(Err(internal("full"))));
    assert_eq!(request.finish().unwrap_err().source, Some("full".to_owned()));

    let request = issued().advance(Event::Saved(Ok(()))).advance(Event::Served(Err(internal("x"))));
    assert_eq!(request.finish().unwrap_err().source, Some("x".to_owned()));
}

#[test]
fn stored_certificate_that_cannot_be_read() {
    let request = CertificateRequest::renew("matrix", "neo.the.matrix").unwrap();
    let request = request.advance(Event::Found(Ok(certificate("dummy certificate"))));
    let error = request.finish().unwrap_err();
    assert_eq!(error.kind, ErrorKind::Internal);
    assert!(error
        .source
        .unwrap()
        .starts_with("Error while parsing the pem certificate for matrix: "));

    let request = CertificateRequest::renew("matrix", "neo.the.matrix").unwrap();
    let request = request.advance(Event::Found(Ok(certificate(
        "-----BEGIN CERTIFICATE-----\nAAAA\n-----END CERTIFICATE-----\n",
    ))));
    assert!(request
        .finish()
        .unwrap_err()
        .source
        .unwrap()
        .starts_with("Error while parsing the certificate chain for matrix: "));
}

#[test]
fn answers_out_of_turn_change_nothing() {
    let request = CertificateRequest::renew("matrix", "neo.the.matrix").unwrap();
    let request = request.advance(Event::Saved(Ok(())));
    assert_eq!(request.action(), Action::FindDomain);
}

#[test]
fn own_certificate_is_kept() {
    let renewal: Renewal<&str> = Renewal::new();
    let renewal = renewal
        .advance_at(OwnEvent::Fetched(FAR.to_owned()), at(FAR_END - 45 * DAY - 100));
    assert_eq!(
        renewal,
        Renewal::Done(
            "\"Gateway certificate was not renewed. There are 45 days until the certificate \
             expires.\""
                .to_owned()
        )
    );
}

#[test]
fn own_certificate_is_renewed() {
    let renewal = Renewal::<&str>::new().advance(OwnEvent::Fetched(NEAR.to_owned()));
    assert_eq!(renewal, Renewal::Create);
    let renewal = renewal.advance(OwnEvent::Created("new"));
    assert_eq!(renewal, Renewal::Serve("new"));
    let renewal = renewal.advance(OwnEvent::Served(true));
    assert_eq!(renewal, Renewal::Save("new"));
    let renewal = renewal.advance(OwnEvent::Saved(true));
    assert_eq!(renewal, Renewal::Done("\"Renewed the gateway certificate.\"".to_owned()));
}

#[test]
fn own_certificate_that_cannot_be_renewed() {
    let renewal = Renewal::<&str>::new().advance(OwnEvent::Fetched("nothing".to_owned()));
    assert_eq!(renewal, Renewal::Aborted(Abort::MalformedPem));
    let renewal = Renewal::<&str>::new().advance(OwnEvent::Fetched(
        "-----BEGIN CERTIFICATE-----\nAAAA\n-----END CERTIFICATE-----\n".to_owned(),
    ));
    assert_eq!(renewal, Renewal::Aborted(Abort::MalformedX509));
    assert_eq!(
        Renewal::Serve("new").advance(OwnEvent::Served(false)),
        Renewal::Aborted(Abort::NotServed)
    );
    assert_eq!(
        Renewal::Save("new").advance(OwnEvent::Saved(false)),
        Renewal::Aborted(Abort::NotSaved)
    );
}
