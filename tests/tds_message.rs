use sql_connector::catalog::{
    descriptor_size, terminator_code, EncryptionOptions, FedAuthOptions, MarsOptions,
    PreLoginOptionToken, SqlVersion,
};
use sql_connector::header::{ClientMessageType, FormatError, MessageStatus, TdsHeader};
use sql_connector::message::{build_prelogin_body, ConfigurationError, PreLoginOption, TdsMessage};

#[test]
fn test_messagestatus_values() {
    let normal = MessageStatus::Normal.value();
    let eom = MessageStatus::EndOfMessage.value();
    let ignore = MessageStatus::Ignore.value();
    let resetconn = MessageStatus::ResetConnection.value();
    let resetconnskiptran = MessageStatus::ResetConnectionSkipTran.value();

    assert_eq!(normal, 0x00);
    assert_eq!(eom, 0x01);
    assert_eq!(ignore, 0x02);
    assert_eq!(resetconn, 0x08);
    assert_eq!(resetconnskiptran, 0x10);
}

#[test]
fn test_clientmessagetype_values() {
    let prelogin = ClientMessageType::PreLogin.value();
    let tsdlogin = ClientMessageType::Tds7Login.value();
    let sspilogin = ClientMessageType::SspiLogin.value();
    let fedauth = ClientMessageType::FederatedAuthToken.value();
    let sqlbatch = ClientMessageType::SqlBatch.value();
    let bulkload = ClientMessageType::BulkLoad.value();
    let rpc = ClientMessageType::Rpc.value();
    let attn = ClientMessageType::Attention.value();
    let tmr = ClientMessageType::TransactionManagerRequest.value();

    assert_eq!(prelogin, 18);
    assert_eq!(tsdlogin, 16);
    assert_eq!(sspilogin, 17);
    assert_eq!(fedauth, 8);
    assert_eq!(sqlbatch, 1);
    assert_eq!(bulkload, 7);
    assert_eq!(rpc, 3);
    assert_eq!(attn, 6);
    assert_eq!(tmr, 14);
}

#[test]
fn test_tdsheader_new_creates_instance() {
    let header = TdsHeader::new(ClientMessageType::PreLogin, MessageStatus::EndOfMessage);

    assert_eq!(header.message_type, ClientMessageType::PreLogin.value());
    // The header carries the status it was created with.
    assert_eq!(header.status, MessageStatus::EndOfMessage.value());
    assert_eq!(header.length, 512);
    assert_eq!(header.spid, 0x0000);
    assert_eq!(header.packet_id, 1);
    assert_eq!(header.window, 0x00);
}

#[test]
fn test_tdsheader_update_message_type_updates() {
    let mut header: TdsHeader = TdsHeader::new(ClientMessageType::Tds7Login, MessageStatus::EndOfMessage);

    header.update_message_type(ClientMessageType::PreLogin);

    assert_eq!(header.message_type, ClientMessageType::PreLogin.value());
}

#[test]
fn test_tdsheader_update_status_updates() {
    let mut header: TdsHeader = TdsHeader::new(ClientMessageType::Tds7Login, MessageStatus::EndOfMessage);

    header.update_status(MessageStatus::Normal);

    assert_eq!(header.status, MessageStatus::Normal.value());
}

#[test]
fn test_tdsheader_tobytearray_returns_array() {
    let header = TdsHeader::new(ClientMessageType::PreLogin, MessageStatus::EndOfMessage);
    let bytes = header.to_byte_array();

    assert_eq!(bytes[0], header.message_type);
    assert_eq!(bytes[1], header.status);
    assert_eq!(bytes[2], (header.length >> 8) as u8);
    assert_eq!(bytes[3], (header.length & 0xff) as u8);
    assert_eq!(bytes[4], (header.spid >> 8) as u8);
    assert_eq!(bytes[5], (header.spid & 0xff) as u8);
    assert_eq!(bytes[6], header.packet_id);
    assert_eq!(bytes[7], header.window);
}

#[test]
fn test_tdsmessage_new_creates_instance() {
    let message = TdsMessage::new();

    assert_eq!(message.header().message_type, ClientMessageType::PreLogin.value());
    // A new message has an empty body and a length that counts the header alone.
    assert!(message.body().is_empty());
    assert_eq!(message.header().length, 8);
}

#[test]
fn test_tdsmessage_generate_prelogin_generates_body() {
    let mut message = TdsMessage::new();

    message.generate_prelogin();

    assert_eq!(message.body().len() + 8, message.header().length as usize);
}

#[test]
fn test_tdsmessage_tobytes_creates_bytes() {
    let message = TdsMessage::new();

    let bytes = message.to_bytes();
    assert_eq!(bytes.len(), 8);
}

#[test]
fn prelogin_request_bytes_match_the_wire_layout() {
    let mut message = TdsMessage::new();
    message.generate_prelogin();
    message.calc_length();
    let bytes = message.to_bytes();
    assert_eq!(&bytes[..8], &[0x12, 0x01, 0x00, 0x14, 0x00, 0x00, 0x01, 0x00]);
    assert_eq!(
        &bytes[8..],
        &[0x00, 0x00, 0x09, 0x00, 0x06, 0xff, 0x10, 0x00, 0x7f, 0x10, 0x00, 0x00]
    );
}

#[test]
fn single_version_option_body_and_length() {
    let options = vec![PreLoginOption {
        token: PreLoginOptionToken::Version,
        length: 6,
        value: vec![0x10, 0x00, 0x7f, 0x10, 0x00, 0x00],
    }];
    let mut message = TdsMessage::new();
    assert_eq!(message.set_prelogin_options(&options), Ok(()));
    assert_eq!(
        message.body().as_slice(),
        &[0x00, 0x00, 0x09, 0x00, 0x06, 0xff, 0x10, 0x00, 0x7f, 0x10, 0x00, 0x00]
    );
    assert_eq!(message.header().length, 20);
    assert_eq!(message.header().status, 0x01);
    assert_eq!(message.header().message_type, 0x12);
}

#[test]
fn options_tile_the_value_region() {
    let options = vec![
        PreLoginOption { token: PreLoginOptionToken::Version, length: 6, value: SqlVersion::SqlServer2022.value().to_vec() },
        PreLoginOption { token: PreLoginOptionToken::Encryption, length: 1, value: vec![EncryptionOptions::NoEncryption.value()] },
        PreLoginOption { token: PreLoginOptionToken::Mars, length: 1, value: vec![MarsOptions::MarsRequested.value()] },
        PreLoginOption { token: PreLoginOptionToken::FedAuthRequired, length: 1, value: vec![FedAuthOptions::Yes.value()] },
    ];
    let body = build_prelogin_body(&options).unwrap();
    assert_eq!(
        body,
        vec![
            0x00, 0x00, 0x09, 0x00, 0x06, //
            0x01, 0x00, 0x0f, 0x00, 0x01, //
            0x04, 0x00, 0x10, 0x00, 0x01, //
            0x06, 0x00, 0x11, 0x00, 0x01, //
            0xff, //
            0x10, 0x00, 0x7f, 0x10, 0x00, 0x00, 0x00, 0x01, 0x01,
        ]
    );
}

#[test]
fn empty_option_list_is_the_terminator_alone() {
    let body = build_prelogin_body(&Vec::new()).unwrap();
    assert_eq!(body, vec![0xff]);
}

#[test]
fn length_mismatch_is_a_configuration_error() {
    let options = vec![PreLoginOption { token: PreLoginOptionToken::Version, length: 5, value: vec![1, 2, 3, 4, 5, 6] }];
    assert_eq!(build_prelogin_body(&options), Err(ConfigurationError::LengthMismatch));

    let mut message = TdsMessage::new();
    assert_eq!(message.set_prelogin_options(&options), Err(ConfigurationError::LengthMismatch));
    assert!(message.body().is_empty());
    assert_eq!(message.header().length, 8);
}

#[test]
fn duplicate_option_is_a_configuration_error() {
    let options = vec![
        PreLoginOption { token: PreLoginOptionToken::Mars, length: 1, value: vec![0] },
        PreLoginOption { token: PreLoginOptionToken::Encryption, length: 1, value: vec![0] },
        PreLoginOption { token: PreLoginOptionToken::Mars, length: 1, value: vec![1] },
    ];
    assert_eq!(build_prelogin_body(&options), Err(ConfigurationError::DuplicateOption));
}

#[test]
fn length_mismatch_is_reported_before_duplicates() {
    let options = vec![
        PreLoginOption { token: PreLoginOptionToken::Mars, length: 1, value: vec![0] },
        PreLoginOption { token: PreLoginOptionToken::Mars, length: 2, value: vec![0] },
    ];
    assert_eq!(build_prelogin_body(&options), Err(ConfigurationError::LengthMismatch));
}

#[test]
fn header_round_trips_through_bytes() {
    let header = TdsHeader { message_type: 0x12, status: 0x01, length: 0x1234, spid: 0xabcd, packet_id: 7, window: 0 };
    let bytes = header.to_byte_array();
    assert_eq!(bytes, [0x12, 0x01, 0x12, 0x34, 0xab, 0xcd, 0x07, 0x00]);
    assert_eq!(TdsHeader::from_bytes(&bytes), Ok(header));
}

#[test]
fn short_header_is_a_format_error() {
    assert_eq!(TdsHeader::from_bytes(&[0x12, 0x01, 0x00, 0x14, 0x00, 0x00, 0x01]), Err(FormatError::TooShort));
    assert_eq!(TdsHeader::from_bytes(&[]), Err(FormatError::TooShort));
}

#[test]
fn decode_reads_the_first_eight_bytes() {
    let header = TdsHeader::from_bytes(&[0x04, 0x01, 0xff, 0xff, 0x00, 0x35, 0x01, 0x00, 0x99]).unwrap();
    assert_eq!(header.message_type, 0x04);
    assert_eq!(header.length, 0xffff);
    assert_eq!(header.spid, 0x35);
}

#[test]
fn catalog_codes() {
    assert_eq!(terminator_code(), 0xff);
    assert_eq!(descriptor_size(), 5);
    assert_eq!(PreLoginOptionToken::Version.value(), 0x00);
    assert_eq!(PreLoginOptionToken::NonceOpt.value(), 0x07);
    assert_eq!(PreLoginOptionToken::Terminator.value(), 0x08);
    assert_eq!(SqlVersion::SqlServer2022.value(), [0x10, 0x00, 0x7f, 0x10, 0x00, 0x00]);
}
