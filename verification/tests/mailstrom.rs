use mailstrom::Config;
use mailstrom::DeliveryOutcome;
use mailstrom::DeliveryProcedure;
use mailstrom::DeliveryState;
use mailstrom::Error;
use mailstrom::MailstromStorage;
use mailstrom::Mailstrom;
use mailstrom::MemoryStorage;
use mailstrom::PreparedEmail;
use mailstrom::StorageError;
use mailstrom::WorkerStatus;
use mailstrom::Command;
use mailstrom::apply_received;
use mailstrom::prepare_email;

/// A delivery procedure that records every payload it is handed and reports
/// a fixed outcome.
struct RecordingDelivery {
    log: std::cell::RefCell<Vec<(String, Vec<String>, String)>>,
    outcome: DeliveryOutcome,
}

impl RecordingDelivery {
    fn succeeding() -> RecordingDelivery {
        RecordingDelivery { log: std::cell::RefCell::new(Vec::new()), outcome: DeliveryOutcome::Delivered }
    }

    fn failing() -> RecordingDelivery {
        RecordingDelivery { log: std::cell::RefCell::new(Vec::new()), outcome: DeliveryOutcome::Failed }
    }
}

impl DeliveryProcedure for RecordingDelivery {
    fn deliver(&self, email: &PreparedEmail, helo_name: &String) -> DeliveryOutcome {
        self.log.borrow_mut().push((
            email.message_id.clone(),
            email.recipients.clone(),
            helo_name.clone(),
        ));
        self.outcome
    }
}

fn sample_email(to: &str) -> email_format::Email {
    let mut email =
        email_format::Email::new("myself@mydomain.com", "Wed, 5 Jan 2015 15:13:05 +1300").unwrap();
    email.set_to(to).unwrap();
    email.set_subject("Hello").unwrap();
    email.set_body("Good to hear from you.\r\n").unwrap();
    email
}

#[test]
fn test_terminate() {
    let (mailstrom, mut worker) = Mailstrom::new(Config::default(), MemoryStorage::new());

    assert_eq!(mailstrom.worker_status(), WorkerStatus::Running);
    mailstrom.die().unwrap();
    let delivery = RecordingDelivery::succeeding();
    assert_eq!(worker.step(&delivery), Some(WorkerStatus::Terminated));
    assert_eq!(mailstrom.worker_status(), WorkerStatus::Terminated);
}

#[test]
fn status_codes_round_trip() {
    let all = [
        WorkerStatus::Running,
        WorkerStatus::Terminated,
        WorkerStatus::Faulted,
        WorkerStatus::Unknown,
    ];
    for s in all {
        assert_eq!(WorkerStatus::from_u8(s.to_u8()), s);
    }
    assert_eq!(WorkerStatus::Running.to_u8(), 0);
    assert_eq!(WorkerStatus::Terminated.to_u8(), 1);
    assert_eq!(WorkerStatus::Faulted.to_u8(), 2);
}

#[test]
fn unrecognized_status_bytes_read_as_unknown() {
    assert_eq!(WorkerStatus::from_u8(3), WorkerStatus::Unknown);
    assert_eq!(WorkerStatus::from_u8(77), WorkerStatus::Unknown);
    assert_eq!(WorkerStatus::from_u8(255), WorkerStatus::Unknown);
    assert_eq!(WorkerStatus::from_u8(0), WorkerStatus::Running);
}

#[test]
fn prepare_email_requires_a_recipient() {
    let refused = prepare_email("id-1".to_string(), Vec::new(), vec![13, 10]);
    assert_eq!(refused.err(), Some(Error::Validation));

    let accepted = prepare_email(
        "id-1".to_string(),
        vec!["you@yourdomain.com".to_string()],
        vec![13, 10],
    )
    .unwrap();
    assert_eq!(accepted.message_id, "id-1");
    assert_eq!(accepted.recipients, vec!["you@yourdomain.com".to_string()]);
    assert_eq!(accepted.data, vec![13, 10]);
}

#[test]
fn memory_storage_creates_and_updates() {
    let mut storage = MemoryStorage::new();
    assert_eq!(storage.count(), 0);

    let a = "a".to_string();
    assert_eq!(storage.create(&a, DeliveryState::Queued), Ok(()));
    assert_eq!(storage.count(), 1);
    assert_eq!(storage.state_of(&a), Some(DeliveryState::Queued));

    assert_eq!(storage.create(&a, DeliveryState::Sent), Err(StorageError::AlreadyExists));
    assert_eq!(storage.state_of(&a), Some(DeliveryState::Queued));

    assert_eq!(storage.update(&a, DeliveryState::Sent), Ok(()));
    assert_eq!(storage.state_of(&a), Some(DeliveryState::Sent));

    let b = "b".to_string();
    assert_eq!(storage.update(&b, DeliveryState::Failed), Err(StorageError::NotFound));
    assert_eq!(storage.state_of(&b), None);
    assert_eq!(storage.create(&b, DeliveryState::Queued), Ok(()));
    assert_eq!(storage.count(), 2);
    assert_eq!(storage.ids(), vec!["a".to_string(), "b".to_string()]);
}

#[test]
fn submit_then_shutdown_tracks_one_item() {
    let (mailstrom, mut worker) = Mailstrom::new(Config::default(), MemoryStorage::new());
    let delivery = RecordingDelivery::succeeding();

    mailstrom.send_email(sample_email("You <you@yourdomain.com>")).unwrap();
    mailstrom.die().unwrap();

    assert_eq!(worker.step(&delivery), None);
    assert_eq!(mailstrom.worker_status(), WorkerStatus::Running);

    let during = mailstrom.storage().snapshot().unwrap();
    assert_eq!(during.count(), 1);

    assert_eq!(worker.step(&delivery), Some(WorkerStatus::Terminated));
    assert_eq!(mailstrom.worker_status(), WorkerStatus::Terminated);

    let after = mailstrom.storage().snapshot().unwrap();
    assert_eq!(after.count(), 1);
    let ids = after.ids();
    assert_eq!(ids, during.ids());
    assert_eq!(after.state_of(&ids[0]), Some(DeliveryState::Sent));
}

#[test]
fn gateway_writes_follow_submission_order() {
    let (mailstrom, mut worker) = Mailstrom::new(Config::default(), MemoryStorage::new());
    let delivery = RecordingDelivery::succeeding();

    let recipients = ["first@yourdomain.com", "second@yourdomain.com", "third@yourdomain.com"];
    for to in recipients {
        mailstrom.send_email(sample_email(to)).unwrap();
    }
    mailstrom.die().unwrap();

    assert_eq!(worker.step(&delivery), None);
    assert_eq!(worker.step(&delivery), None);
    assert_eq!(worker.step(&delivery), None);
    assert_eq!(worker.step(&delivery), Some(WorkerStatus::Terminated));

    let log = delivery.log.borrow();
    assert_eq!(log.len(), 3);
    for (k, to) in recipients.iter().enumerate() {
        assert_eq!(log[k].1, vec![to.to_string()]);
    }

    let snapshot = mailstrom.storage().snapshot().unwrap();
    let ids: Vec<String> = snapshot.ids();
    let logged_ids: Vec<String> = log.iter().map(|entry| entry.0.clone()).collect();
    assert_eq!(ids, logged_ids);
    for id in &ids {
        assert_eq!(snapshot.state_of(id), Some(DeliveryState::Sent));
    }
}

#[test]
fn submit_after_worker_exit_is_channel_closed() {
    let (mailstrom, mut worker) = Mailstrom::new(Config::default(), MemoryStorage::new());
    let delivery = RecordingDelivery::succeeding();

    mailstrom.die().unwrap();
    assert_eq!(worker.step(&delivery), Some(WorkerStatus::Terminated));
    drop(worker);

    assert_eq!(
        mailstrom.send_email(sample_email("you@yourdomain.com")),
        Err(Error::ChannelClosed)
    );
    assert_eq!(mailstrom.die(), Err(Error::ChannelClosed));
}

#[test]
fn dropping_the_handle_terminates_the_worker() {
    let (mailstrom, mut worker) = Mailstrom::new(Config::default(), MemoryStorage::new());
    let delivery = RecordingDelivery::succeeding();

    drop(mailstrom);
    assert_eq!(worker.step(&delivery), Some(WorkerStatus::Terminated));
    assert_eq!(worker.step(&delivery), Some(WorkerStatus::Terminated));
}

#[test]
fn unusable_gateway_faults_the_worker() {
    let (mailstrom, mut worker) = Mailstrom::new(Config::default(), MemoryStorage::new());
    let delivery = RecordingDelivery::succeeding();

    let stolen = mailstrom.storage().take();
    assert!(stolen.is_some());

    mailstrom.send_email(sample_email("you@yourdomain.com")).unwrap();
    assert_eq!(worker.step(&delivery), Some(WorkerStatus::Faulted));
    assert_eq!(mailstrom.worker_status(), WorkerStatus::Faulted);
    assert_eq!(delivery.log.borrow().len(), 1);

    mailstrom.send_email(sample_email("other@yourdomain.com")).unwrap();
    assert_eq!(worker.step(&delivery), Some(WorkerStatus::Faulted));
    assert_eq!(delivery.log.borrow().len(), 1);
}

#[test]
fn failed_delivery_is_recorded_without_stopping_the_worker() {
    let (mailstrom, mut worker) = Mailstrom::new(Config::default(), MemoryStorage::new());
    let delivery = RecordingDelivery::failing();

    mailstrom.send_email(sample_email("you@yourdomain.com")).unwrap();
    assert_eq!(worker.step(&delivery), None);
    assert_eq!(mailstrom.worker_status(), WorkerStatus::Running);

    let snapshot = mailstrom.storage().snapshot().unwrap();
    let ids = snapshot.ids();
    assert_eq!(ids.len(), 1);
    assert_eq!(snapshot.state_of(&ids[0]), Some(DeliveryState::Failed));

    mailstrom.die().unwrap();
    assert_eq!(worker.step(&delivery), Some(WorkerStatus::Terminated));
}

#[test]
fn message_ids_are_fresh_and_qualified() {
    let config = Config { helo_name: "mydomain.com".to_string() };
    let (mailstrom, mut worker) = Mailstrom::new(config, MemoryStorage::new());
    let delivery = RecordingDelivery::succeeding();

    mailstrom.send_email(sample_email("you@yourdomain.com")).unwrap();
    mailstrom.send_email(sample_email("you@yourdomain.com")).unwrap();
    mailstrom.die().unwrap();
    assert_eq!(worker.step(&delivery), None);
    assert_eq!(worker.step(&delivery), None);
    assert_eq!(worker.step(&delivery), Some(WorkerStatus::Terminated));

    let log = delivery.log.borrow();
    assert_eq!(log.len(), 2);
    assert_ne!(log[0].0, log[1].0);
    for entry in log.iter() {
        assert_eq!(entry.0.len(), 36 + 1 + "mydomain.com".len());
        assert!(entry.0.ends_with("@mydomain.com"));
        assert_eq!(entry.2, "mydomain.com");
    }
}

#[test]
fn message_without_originator_does_not_crash_submission() {
    let wire = b"Date:Wed, 5 Jan 2015 15:13:05 +1300\r\nTo:you@yourdomain.com\r\n\r\nHi.";
    let (email, remainder) =
        <email_format::Email as email_format::rfc5322::Parsable>::parse(wire).unwrap();
    assert!(remainder.is_empty());

    let (mailstrom, mut worker) = Mailstrom::new(Config::default(), MemoryStorage::new());
    let delivery = RecordingDelivery::succeeding();

    assert_eq!(mailstrom.send_email(email), Ok(()));
    assert_eq!(worker.step(&delivery), None);
    assert_eq!(delivery.log.borrow()[0].1, vec!["you@yourdomain.com".to_string()]);

    mailstrom.die().unwrap();
    assert_eq!(worker.step(&delivery), Some(WorkerStatus::Terminated));
}

#[test]
fn email_without_recipient_is_refused() {
    let (mailstrom, mut worker) = Mailstrom::new(Config::default(), MemoryStorage::new());
    let delivery = RecordingDelivery::succeeding();

    let email =
        email_format::Email::new("myself@mydomain.com", "Wed, 5 Jan 2015 15:13:05 +1300").unwrap();
    assert_eq!(mailstrom.send_email(email), Err(Error::Validation));

    mailstrom.die().unwrap();
    assert_eq!(worker.step(&delivery), Some(WorkerStatus::Terminated));
    let snapshot = mailstrom.storage().snapshot().unwrap();
    assert_eq!(snapshot.count(), 0);
    assert_eq!(delivery.log.borrow().len(), 0);
}

#[test]
fn shutdown_writes_nothing_through_the_gateway() {
    let mut storage = MemoryStorage::new();
    let before_len = storage.count();

    let stopped = apply_received(&None, &mut storage, DeliveryOutcome::Delivered);
    assert_eq!(stopped, Some(WorkerStatus::Terminated));
    assert_eq!(storage.count(), before_len);

    let stopped = apply_received(&Some(Command::Shutdown), &mut storage, DeliveryOutcome::Failed);
    assert_eq!(stopped, Some(WorkerStatus::Terminated));
    assert_eq!(storage.count(), before_len);
}

#[test]
fn a_dispatch_records_exactly_its_outcome() {
    let mut storage = MemoryStorage::new();
    let email = PreparedEmail {
        message_id: "m-1".to_string(),
        recipients: vec!["you@yourdomain.com".to_string()],
        data: vec![13, 10],
    };
    let running = apply_received(
        &Some(Command::Dispatch(email)),
        &mut storage,
        DeliveryOutcome::Delivered,
    );
    assert_eq!(running, None);
    assert_eq!(storage.count(), 1);
    assert_eq!(storage.state_of(&"m-1".to_string()), Some(DeliveryState::Sent));
}

#[test]
fn default_config_announces_localhost() {
    let config = Config::default();
    assert_eq!(config.helo_name, "localhost");
}

#[test]
fn recipients_cover_to_cc_and_bcc() {
    let mut email =
        email_format::Email::new("myself@mydomain.com", "Wed, 5 Jan 2015 15:13:05 +1300").unwrap();
    email.set_to("one@yourdomain.com").unwrap();
    email.set_cc("two@yourdomain.com").unwrap();
    email.set_bcc("three@yourdomain.com").unwrap();
    email.set_body("Hi.\r\n").unwrap();

    let (mailstrom, mut worker) = Mailstrom::new(Config::default(), MemoryStorage::new());
    let delivery = RecordingDelivery::succeeding();
    mailstrom.send_email(email).unwrap();
    assert_eq!(worker.step(&delivery), None);

    let log = delivery.log.borrow();
    assert_eq!(
        log[0].1,
        vec![
            "one@yourdomain.com".to_string(),
            "two@yourdomain.com".to_string(),
            "three@yourdomain.com".to_string(),
        ]
    );

    mailstrom.die().unwrap();
    drop(log);
    assert_eq!(worker.step(&delivery), Some(WorkerStatus::Terminated));
}
