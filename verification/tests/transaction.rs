use kornal::aht20::AHT20;
use kornal::bus::{Error, Operation, Transaction};
use kornal::lcd1602a::Lcd1602a;

/// Runs `script` on a bus whose transfer number `fails_at` fails, and returns
/// what was performed and how the transaction ended.
fn run(script: Vec<Operation>, fails_at: Option<usize>) -> (Vec<Operation>, Result<(), Error>) {
    let mut performed = Vec::new();
    let mut transaction = Transaction::new(script);
    let mut guard = 0;
    while let Some(operation) = transaction.pending() {
        let copy = operation.clone();
        let succeeded = fails_at != Some(performed.len());
        if succeeded {
            performed.push(copy);
        }
        transaction.complete(succeeded);
        guard += 1;
        assert!(guard < 1000);
    }
    (performed, transaction.result().expect("a transaction without a pending operation has ended"))
}

#[test]
fn transaction_performs_the_whole_script_in_order() {
    let lcd = Lcd1602a::new(0x27);
    let (performed, result) = run(lcd.init(), None);
    assert_eq!(performed, lcd.init());
    assert_eq!(result, Ok(()));
}

#[test]
fn transaction_stops_at_the_first_failure() {
    let lcd = Lcd1602a::new(0x27);
    let script = lcd.init();
    for fails_at in 0..script.len() {
        let (performed, result) = run(lcd.init(), Some(fails_at));
        assert_eq!(performed.len(), fails_at);
        assert_eq!(&performed[..], &script[..fails_at]);
        assert_eq!(result, Err(Error::Transport));
    }
}

#[test]
fn transaction_of_nothing_has_ended_well() {
    let transaction = Transaction::new(Vec::new());
    assert_eq!(transaction.pending(), None);
    assert_eq!(transaction.result(), Some(Ok(())));
}

#[test]
fn transaction_has_no_result_while_it_runs() {
    let sensor = AHT20::new(0x38);
    let mut transaction = Transaction::new(sensor.measure());
    assert_eq!(transaction.result(), None);
    assert_eq!(
        transaction.pending(),
        Some(&Operation::Write { address: 0x38, bytes: vec![0xAC, 0x33, 0x00] })
    );
    transaction.complete(true);
    assert_eq!(transaction.result(), None);
    assert_eq!(transaction.pending(), Some(&Operation::Delay { micros: 80_000 }));
    transaction.complete(true);
    assert_eq!(transaction.result(), None);
    assert_eq!(transaction.pending(), Some(&Operation::Read { address: 0x38, length: 7 }));
    transaction.complete(true);
    assert_eq!(transaction.pending(), None);
    assert_eq!(transaction.result(), Some(Ok(())));
}

#[test]
fn transaction_stays_failed() {
    let sensor = AHT20::new(0x38);
    let mut transaction = Transaction::new(sensor.measure());
    transaction.complete(true);
    transaction.complete(false);
    assert_eq!(transaction.pending(), None);
    assert_eq!(transaction.result(), Some(Err(Error::Transport)));
    transaction.complete(true);
    assert_eq!(transaction.pending(), None);
    assert_eq!(transaction.result(), Some(Err(Error::Transport)));
}

#[test]
fn transaction_stays_ended() {
    let lcd = Lcd1602a::new(0x27);
    let mut transaction = Transaction::new(lcd.clear());
    transaction.complete(true);
    transaction.complete(true);
    assert_eq!(transaction.result(), Some(Ok(())));
    transaction.complete(false);
    assert_eq!(transaction.pending(), None);
    assert_eq!(transaction.result(), Some(Ok(())));
}

#[test]
fn rejected_cursor_leaves_nothing_to_perform() {
    let lcd = Lcd1602a::new(0x27);
    let mut traffic = Vec::new();
    for (row, col) in [(2u8, 0u8), (0, 16)] {
        match lcd.put_cursor(row, col) {
            Ok(operation) => traffic.push(operation),
            Err(error) => assert_eq!(error, Error::InvalidParameter),
        }
    }
    assert!(traffic.is_empty());
}

#[test]
fn cloned_operation_is_equal() {
    let lcd = Lcd1602a::new(0x27);
    for operation in lcd.init().iter().chain(AHT20::new(0x38).measure().iter()) {
        assert_eq!(&operation.clone(), operation);
    }
}
