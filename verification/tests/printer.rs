use neverest::error::{CommandError, ErrorClass};
use neverest::output::{ColorFmt, OutputFmt};
use neverest::printer::printer::{written, StdoutPrinter};
use neverest::printer::{push_message, Channel, Message};

#[test]
fn default_formats() {
    assert_eq!(OutputFmt::default(), OutputFmt::Plain);
    assert_eq!(ColorFmt::default(), ColorFmt::Auto);
    assert_eq!(StdoutPrinter::default().fmt, OutputFmt::Plain);
}

#[test]
fn printer_knows_its_format() {
    assert!(StdoutPrinter::new(OutputFmt::Json).is_json());
    assert!(!StdoutPrinter::new(OutputFmt::Plain).is_json());
    assert_eq!(StdoutPrinter::from(OutputFmt::Json).fmt, OutputFmt::Json);
}

#[test]
fn plain_printer_writes_the_text() {
    let p = StdoutPrinter::new(OutputFmt::Plain);
    assert_eq!(p.print("Account a successfully synchronized!"), Ok("Account a successfully synchronized!".to_string()));
    assert_eq!(p.print_log("Checking…"), Some("Checking…".to_string()));
    assert_eq!(p.print(""), Ok(String::new()));
}

#[test]
fn json_printer_writes_no_log() {
    let p = StdoutPrinter::new(OutputFmt::Json);
    assert_eq!(p.print_log("Checking…"), None);
}

#[test]
fn json_printer_writes_the_json_text_of_the_result() {
    let p = StdoutPrinter::new(OutputFmt::Json);
    assert_eq!(p.print(""), Ok("\"\"".to_string()));
    assert_eq!(p.print("tab\there\u{1}"), Ok("\"tab\\there\\u0001\"".to_string()));
    assert_eq!(p.print("done"), Ok("\"done\"".to_string()));
    assert_eq!(p.print("say \"hi\"\n"), Ok("\"say \\\"hi\\\"\\n\"".to_string()));
    let text = "Account wörk successfully synchronized!";
    assert_eq!(p.print(text).unwrap(), serde_json::to_string(text).unwrap());
    let back: String = serde_json::from_str(&p.print(text).unwrap()).unwrap();
    assert_eq!(back, text);
}

#[test]
fn output_failure_is_of_its_own_class() {
    assert_eq!(CommandError::CannotWriteJson.class(), ErrorClass::Output);
    assert_eq!(CommandError::CannotWriteJson.message(), "cannot write json to writer");
    assert_eq!(CommandError::CannotWriteJson.side(), None);
}

#[test]
fn messages_are_made_by_channel() {
    assert_eq!(Message::log("a".to_string()), Message { channel: Channel::Log, text: "a".to_string() });
    assert_eq!(Message::out("b".to_string()), Message { channel: Channel::Out, text: "b".to_string() });
    let mut list = vec![Message::log("a".to_string())];
    push_message(&mut list, Message::out("b".to_string()));
    assert_eq!(list.len(), 2);
    assert_eq!(list[1].channel, Channel::Out);
}

#[test]
fn what_is_written_follows_the_encoder_in_json_format_only() {
    let failed = || serde_json::from_str::<u8>("x").map(|n| n.to_string());
    assert!(failed().is_err());
    assert_eq!(written(OutputFmt::Json, "a", failed()), Err(CommandError::CannotWriteJson));
    assert_eq!(written(OutputFmt::Json, "a", Ok("\"a\"".to_string())), Ok("\"a\"".to_string()));
    assert_eq!(written(OutputFmt::Plain, "a", failed()), Ok("a".to_string()));
    assert_eq!(written(OutputFmt::Plain, "a", Ok("\"a\"".to_string())), Ok("a".to_string()));
}
