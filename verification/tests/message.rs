use std::sync::Arc;

use volo_core::message::{
    round_trip, DecodeError, EncodeError, EntryMessage, TInputProtocol, TMessageIdentifier,
    TMessageType, TOutputProtocol,
};

/// A message of one length byte and that many bytes of text.
#[derive(Debug, Clone, PartialEq, Eq)]
struct Note {
    text: Vec<u8>,
}

impl EntryMessage for Note {
    fn encode(&self, protocol: &mut TOutputProtocol) -> Result<(), EncodeError> {
        let mut bytes = vec![self.text.len() as u8];
        bytes.extend_from_slice(&self.text);
        protocol.write(&bytes)
    }

    fn decode(
        protocol: &mut TInputProtocol,
        msg_ident: &TMessageIdentifier,
    ) -> Result<Self, DecodeError> {
        if msg_ident.name != "note" {
            return Err(DecodeError { message: String::from("not a note") });
        }
        let length = protocol.read(1)?[0] as usize;
        if length > protocol.remaining() {
            return Err(DecodeError { message: String::from("cut short") });
        }
        Ok(Note { text: protocol.read(length)? })
    }

    fn size(&self) -> usize {
        1 + self.text.len()
    }
}

fn ident(name: &str) -> TMessageIdentifier {
    TMessageIdentifier {
        name: name.to_string(),
        message_type: TMessageType::Call,
        sequence_number: 1,
    }
}

fn note(text: &str) -> Note {
    Note { text: text.as_bytes().to_vec() }
}

#[test]
fn message_is_read_back_from_its_bytes() {
    let message = note("ping");
    let mut output = TOutputProtocol::new(64);
    message.encode(&mut output).unwrap();
    let bytes = output.into_bytes();
    assert_eq!(bytes, vec![4, b'p', b'i', b'n', b'g']);
    assert_eq!(message.size(), bytes.len());
    let mut input = TInputProtocol::new(bytes);
    assert_eq!(Note::decode(&mut input, &ident("note")).unwrap(), message);
    assert_eq!(input.remaining(), 0);
}

#[test]
fn round_trip_gives_the_message_and_its_size() {
    assert_eq!(round_trip(&note("ping"), &ident("note"), 5), Some((note("ping"), 5)));
    assert_eq!(round_trip(&note(""), &ident("note"), 1), Some((note(""), 1)));
    assert_eq!(round_trip(&note("ping"), &ident("note"), 4), None);
}

#[test]
fn decode_leaves_what_follows_the_message() {
    let mut input = TInputProtocol::new(vec![2, b'h', b'i', 1, b'!', 9]);
    assert_eq!(Note::decode(&mut input, &ident("note")).unwrap(), note("hi"));
    assert_eq!(input.remaining(), 3);
    assert_eq!(Note::decode(&mut input, &ident("note")).unwrap(), note("!"));
    assert_eq!(input.remaining(), 1);
}

#[test]
fn decode_fails_on_an_input_cut_short() {
    let mut input = TInputProtocol::new(vec![5, b'h', b'i']);
    assert!(Note::decode(&mut input, &ident("note")).is_err());
    let mut input = TInputProtocol::new(Vec::new());
    assert!(Note::decode(&mut input, &ident("note")).is_err());
}

#[test]
fn decode_fails_for_another_identifier() {
    let mut input = TInputProtocol::new(vec![2, b'h', b'i']);
    assert!(Note::decode(&mut input, &ident("other")).is_err());
}

#[test]
fn shared_handle_behaves_as_the_message() {
    let message = note("shared");
    let shared = Arc::new(message.clone());

    let mut direct = TOutputProtocol::new(64);
    let mut through = TOutputProtocol::new(64);
    assert_eq!(message.encode(&mut direct).is_ok(), shared.encode(&mut through).is_ok());
    let bytes = direct.into_bytes();
    assert_eq!(bytes, through.into_bytes());
    assert_eq!(message.size(), shared.size());

    let mut first = TInputProtocol::new(bytes.clone());
    let mut second = TInputProtocol::new(bytes);
    let plain = Note::decode(&mut first, &ident("note")).unwrap();
    let handle = <Arc<Note> as EntryMessage>::decode(&mut second, &ident("note")).unwrap();
    assert_eq!(*handle, plain);
    assert_eq!(first.remaining(), second.remaining());
}

#[test]
fn shared_handle_fails_as_the_message_fails() {
    let message = note("too long");
    let shared = Arc::new(message.clone());
    let mut direct = TOutputProtocol::new(9);
    let mut through = TOutputProtocol::new(9);
    direct.write(&[1, 2]).unwrap();
    through.write(&[1, 2]).unwrap();
    let plain = message.encode(&mut direct).unwrap_err();
    let handle = shared.encode(&mut through).unwrap_err();
    assert_eq!(plain.message, handle.message);
    assert_eq!(plain.message, "the output is full");
    assert_eq!(direct.into_bytes(), vec![1, 2]);
    assert_eq!(through.into_bytes(), vec![1, 2]);

    let mut first = TInputProtocol::new(vec![5, b'h', b'i']);
    let mut second = TInputProtocol::new(vec![5, b'h', b'i']);
    let plain = Note::decode(&mut first, &ident("note")).unwrap_err();
    let handle = <Arc<Note> as EntryMessage>::decode(&mut second, &ident("note")).unwrap_err();
    assert_eq!(plain.message, handle.message);
    assert_eq!(first.remaining(), second.remaining());

    let mut input = TInputProtocol::new(Vec::new());
    let error = Note::decode(&mut input, &ident("note")).unwrap_err();
    assert_eq!(error.message, "the input ends before the message");
}

#[test]
fn shared_handle_fails_where_the_message_fails() {
    let shared = Arc::new(note("too long"));
    let mut output = TOutputProtocol::new(3);
    assert!(shared.encode(&mut output).is_err());
    let mut input = TInputProtocol::new(vec![9, 1]);
    assert!(<Arc<Note> as EntryMessage>::decode(&mut input, &ident("note")).is_err());
    assert_eq!(round_trip(&shared, &ident("note"), 3), None);
    assert_eq!(round_trip(&shared, &ident("note"), 9), Some((shared.clone(), 9)));
}

#[test]
fn output_takes_bytes_up_to_its_limit() {
    let mut output = TOutputProtocol::new(3);
    assert!(output.write(&[1, 2]).is_ok());
    assert!(output.write(&[3, 4]).is_err());
    assert!(output.write(&[3]).is_ok());
    assert!(output.write(&[]).is_ok());
    assert!(output.write(&[5]).is_err());
    assert_eq!(output.into_bytes(), vec![1, 2, 3]);
}

#[test]
fn input_is_read_from_the_front() {
    let mut input = TInputProtocol::new(vec![1, 2, 3]);
    assert_eq!(input.remaining(), 3);
    assert_eq!(input.read(2).unwrap(), vec![1, 2]);
    assert!(input.read(2).is_err());
    assert_eq!(input.remaining(), 1);
    assert_eq!(input.read(0).unwrap(), Vec::<u8>::new());
    assert_eq!(input.read(1).unwrap(), vec![3]);
    assert_eq!(input.remaining(), 0);
}
