use traq_bot_http::payloads::types::{TimeStamp};
use traq_bot_http::payloads::{
    BotMessageStampsUpdatedPayload, ChannelCreatedPayload, ChannelTopicChangedPayload,
    DirectMessageCreatedPayload, DirectMessageDeletedPayload, DirectMessageUpdatedPayload,
    JoinedPayload, LeftPayload, MessageCreatedPayload, MessageDeletedPayload, MessageUpdatedPayload,
    PingPayload, StampCreatedPayload, TagAddedPayload, TagRemovedPayload, UserCreatedPayload,
    UserGroupAdminAddedPayload, UserGroupAdminRemovedPayload, UserGroupCreatedPayload,
    UserGroupDeletedPayload, UserGroupMemberAddedPayload, UserGroupMemberRemovedPayload,
    UserGroupMemberUpdatedPayload, UserGroupUpdatedPayload,
};
use traq_bot_http::{ErrorKind, Event, EventKind, RequestParser};

const PING: &str = r##"{
    "eventTime": "2019-05-07T04:50:48.582586882Z"
}"##;

const JOINED: &str = r##"{
    "eventTime": "2019-05-08T13:49:13.769110201Z",
    "channel": {
        "id": "f86c925c-3002-4ba5-939a-c92344e534f9",
        "name": "po",
        "path": "#a/po",
        "parentId": "ea452867-553b-4808-a14f-a47ee0009ee6",
        "creator": {
            "id": "dfdff0c9-5de0-46ee-9721-2525e8bb3d45",
            "name": "takashi_trap",
            "displayName": "寺田 健二",
            "iconId": "2bc06cda-bdb9-4a68-8000-62f907f36a92",
            "bot": false
        },
        "createdAt": "2018-04-25T12:22:02Z",
        "updatedAt": "2018-04-25T12:22:02Z"
    }
}"##;

const LEFT: &str = r##"{
    "eventTime": "2019-05-08T13:49:16.497848449Z",
    "channel": {
        "id": "f86c925c-3002-4ba5-939a-c92344e534f9",
        "name": "po",
        "path": "#a/po",
        "parentId": "ea452867-553b-4808-a14f-a47ee0009ee6",
        "creator": {
            "id": "dfdff0c9-5de0-46ee-9721-2525e8bb3d45",
            "name": "takashi_trap",
            "displayName": "寺田 健二",
            "iconId": "2bc06cda-bdb9-4a68-8000-62f907f36a92",
            "bot": false
        },
        "createdAt": "2018-04-25T12:22:02Z",
        "updatedAt": "2018-04-25T12:22:02Z"
    }
}"##;

const MESSAGE_CREATED: &str = r##"{
    "eventTime": "2019-05-08T13:33:51.690308239Z",
    "message": {
        "id": "bc9106b3-f9b2-4eca-9ba1-72b39b40954e",
        "user": {
            "id": "dfdff0c9-5de0-46ee-9721-2525e8bb3d45",
            "name": "takashi_trap",
            "displayName": "寺田 健二",
            "iconId": "2bc06cda-bdb9-4a68-8000-62f907f36a92",
            "bot": false
        },
        "channelId": "9aba50da-f605-4cd0-a428-5e4558cb911e",
        "text": "!{\"type\": \"user\", \"raw\": \"@takashi_trap\", \"id\": \"dfdff0c9-5de0-46ee-9721-2525e8bb3d45\"} こんにちは",
        "plainText": "@takashi_trap こんにちは",
        "embedded": [
            {
                "raw": "@takashi_trap",
                "type": "user",
                "id": "dfdff0c9-5de0-46ee-9721-2525e8bb3d45"
            }
        ],
        "createdAt": "2019-05-08T13:33:51.632149265Z",
        "updatedAt": "2019-05-08T13:33:51.632149265Z"
    }
}"##;

const MESSAGE_DELETED: &str = r##"{
    "eventTime": "2019-05-08T13:33:51.690308239Z",
    "message": {
        "id": "bc9106b3-f9b2-4eca-9ba1-72b39b40954e",
        "channelId": "9aba50da-f605-4cd0-a428-5e4558cb911e"
    }
}"##;

const MESSAGE_UPDATED: &str = r##"{
    "eventTime": "2019-05-08T13:33:51.690308239Z",
    "message": {
        "id": "bc9106b3-f9b2-4eca-9ba1-72b39b40954e",
        "user": {
            "id": "dfdff0c9-5de0-46ee-9721-2525e8bb3d45",
            "name": "takashi_trap",
            "displayName": "寺田 健二",
            "iconId": "2bc06cda-bdb9-4a68-8000-62f907f36a92",
            "bot": false
        },
        "channelId": "9aba50da-f605-4cd0-a428-5e4558cb911e",
        "text": "!{\"type\": \"user\", \"raw\": \"@takashi_trap\", \"id\": \"dfdff0c9-5de0-46ee-9721-2525e8bb3d45\"} こんにちは",
        "plainText": "@takashi_trap こんにちは",
        "embedded": [
            {
                "raw": "@takashi_trap",
                "type": "user",
                "id": "dfdff0c9-5de0-46ee-9721-2525e8bb3d45"
            }
        ],
        "createdAt": "2019-05-08T13:33:51.632149265Z",
        "updatedAt": "2019-05-08T13:33:51.632149265Z"
    }
}"##;

const DIRECT_MESSAGE_CREATED: &str = r##"{
    "eventTime": "2019-05-08T13:36:09.421492525Z",
    "message": {
        "id": "2d7ff3f5-c313-4f4a-a9bb-0b5f84d2b6f8",
        "user": {
            "id": "dfdff0c9-5de0-46ee-9721-2525e8bb3d45",
            "name": "takashi_trap",
            "displayName": "寺田 健二",
            "iconId": "2bc06cda-bdb9-4a68-8000-62f907f36a92",
            "bot": false
        },
        "channelId": "c5a5a697-3bad-4540-b2da-93dc88181d34",
        "text": "!{\"type\": \"user\", \"raw\": \"@takashi_trap\", \"id\": \"dfdff0c9-5de0-46ee-9721-2525e8bb3d45\"} こんにちは",
        "plainText": "@takashi_trap こんにちは",
        "embedded": [
            {
                "raw": "@takashi_trap",
                "type": "user",
                "id": "dfdff0c9-5de0-46ee-9721-2525e8bb3d45"
            }
        ],
        "createdAt": "2019-05-08T13:36:09.365393261Z",
        "updatedAt": "2019-05-08T13:36:09.365393261Z"
    }
}"##;

const DIRECT_MESSAGE_DELETED: &str = r##"{
    "eventTime": "2019-05-08T13:36:09.421492525Z",
    "message": {
        "id": "2d7ff3f5-c313-4f4a-a9bb-0b5f84d2b6f8",
        "userId": "dfdff0c9-5de0-46ee-9721-2525e8bb3d45",
        "channelId": "c5a5a697-3bad-4540-b2da-93dc88181d34"
    }
}"##;

const DIRECT_MESSAGE_UPDATED: &str = r##"{
    "eventTime": "2019-05-08T13:36:09.421492525Z",
    "message": {
        "id": "2d7ff3f5-c313-4f4a-a9bb-0b5f84d2b6f8",
        "user": {
            "id": "dfdff0c9-5de0-46ee-9721-2525e8bb3d45",
            "name": "takashi_trap",
            "displayName": "寺田 健二",
            "iconId": "2bc06cda-bdb9-4a68-8000-62f907f36a92",
            "bot": false
        },
        "channelId": "c5a5a697-3bad-4540-b2da-93dc88181d34",
        "text": "!{\"type\": \"user\", \"raw\": \"@takashi_trap\", \"id\": \"dfdff0c9-5de0-46ee-9721-2525e8bb3d45\"} こんにちは",
        "plainText": "@takashi_trap こんにちは",
        "embedded": [
            {
                "raw": "@takashi_trap",
                "type": "user",
                "id": "dfdff0c9-5de0-46ee-9721-2525e8bb3d45"
            }
        ],
        "createdAt": "2019-05-08T13:36:09.365393261Z",
        "updatedAt": "2019-05-08T13:36:09.365393261Z"
    }
}"##;

const BOT_MESSAGE_STAMPS_UPDATED: &str = r##"{
    "eventTime": "2020-10-17T03:35:34.5326265Z",
    "messageId": "200b6600-b2cd-4c1e-b366-9c40308cc087",
    "stamps": [
        {
            "stampId": "1cd58034-8998-4b1c-afe4-fcd591354a97",
            "userId": "b80551a5-2768-4d29-ad78-8e0e92330c8d",
            "count": 22,
            "createdAt": "2020-10-17T03:35:17.89545Z",
            "updatedAt": "2020-10-17T03:35:34Z"
        },
        {
            "stampId": "6fc62b49-dea0-45b8-8c0c-38035082b111",
            "userId": "b80551a5-2768-4d29-ad78-8e0e92330c8d",
            "count": 23,
            "createdAt": "2020-10-17T03:35:17.737127Z",
            "updatedAt": "2020-10-17T03:35:34Z"
        },
        {
            "stampId": "b77fad4e-b63f-42a2-916c-5cfe5af3d8b9",
            "userId": "b80551a5-2768-4d29-ad78-8e0e92330c8d",
            "count": 24,
            "createdAt": "2020-10-17T03:34:56.575099Z",
            "updatedAt": "2020-10-17T03:35:34Z"
        }
    ]
}"##;

const CHANNEL_CREATED: &str = r##"{
    "eventTime": "2019-05-08T13:45:51.506206852Z",
    "channel": {
        "id": "711afb4c-23e7-46dc-b845-5160f7088ce9",
        "name": "yamada",
        "path": "#gps/yamada",
        "parentId": "ea452867-553b-4808-a14f-a47ee0009ee6",
        "creator": {
            "id": "dfdff0c9-5de0-46ee-9721-2525e8bb3d45",
            "name": "takashi_trap",
            "displayName": "寺田 健二",
            "iconId": "2bc06cda-bdb9-4a68-8000-62f907f36a92",
            "bot": false
        },
        "createdAt": "2019-05-08T13:45:51.487718Z",
        "updatedAt": "2019-05-08T13:45:51.487718Z"
    }
}"##;

const CHANNEL_TOPIC_CHANGED: &str = r##"{
    "eventTime": "2019-05-09T11:32:49.505357701Z",
    "channel": {
        "id": "9aba50da-f605-4cd0-a428-5e4558cb911e",
        "name": "bot",
        "path": "#a/bot",
        "parentId": "ea452867-553b-4808-a14f-a47ee0009ee6",
        "creator": {
            "id": "dfdff0c9-5de0-46ee-9721-2525e8bb3d45",
            "name": "takashi_trap",
            "displayName": "寺田 健二",
            "iconId": "2bc06cda-bdb9-4a68-8000-62f907f36a92",
            "bot": false
        },
        "createdAt": "2019-04-02T06:31:16.229419Z",
        "updatedAt": "2019-05-09T11:32:49.475127Z"
    },
    "topic": "トピック",
    "updater": {
        "id": "dfdff0c9-5de0-46ee-9721-2525e8bb3d45",
        "name": "takashi_trap",
        "displayName": "寺田 健二",
        "iconId": "2bc06cda-bdb9-4a68-8000-62f907f36a92",
        "bot": false
    }
}"##;

const USER_CREATED: &str = r##"{
    "eventTime": "2019-05-08T08:31:06.566228282Z",
    "user": {
        "id": "dfdff0c9-5de0-46ee-9721-2525e8bb3d45",
        "name": "takashi_trap",
        "displayName": "",
        "iconId": "2bc06cda-bdb9-4a68-8000-62f907f36a92",
        "bot": false
    }
}"##;

const STAMP_CREATED: &str = r##"{
    "eventTime": "2019-05-08T08:31:06.566228282Z",
    "id": "2bc06cda-bdb9-4a68-8000-62f907f36a92",
    "name": "naruhodo",
    "fileId": "2bc06cda-bdb9-4a68-8000-62f907f36a92",
    "creator": {
        "id": "dfdff0c9-5de0-46ee-9721-2525e8bb3d45",
        "name": "takashi_trap",
        "displayName": "",
        "iconId": "2bc06cda-bdb9-4a68-8000-62f907f36a92",
        "bot": false
    }
}"##;

const TAG_ADDED: &str = r##"{
    "eventTime": "2019-05-08T08:31:06.566228282Z",
    "tagId": "2bc06cda-bdb9-4a68-8000-62f907f36a92",
    "tag": "全強"
}"##;

const TAG_REMOVED: &str = r##"{
    "eventTime": "2019-05-08T08:31:06.566228282Z",
    "tagId": "2bc06cda-bdb9-4a68-8000-62f907f36a92",
    "tag": "全強"
}"##;

const USER_GROUP_CREATED: &str = r##"{
    "eventTime": "2023-08-25T04:04:32.912312Z",
    "group": {
        "id": "f265bde2-04cc-4856-9008-3db1d953a539",
        "name": "fugafuga",
        "description": "FUGA_FUGA",
        "type": "ふがふが",
        "icon": "81f6da0d-eaab-4c42-84ac-74f5111e1eaa",
        "admins": [
            {
                "groupId": "f265bde2-04cc-4856-9008-3db1d953a539",
                "userId": "8e6a088f-9274-42c0-bb20-cee7913d144b"
            }
        ],
        "members": [
            {
                "groupId": "f265bde2-04cc-4856-9008-3db1d953a539",
                "userId": "8e6a088f-9274-42c0-bb20-cee7913d144b",
                "role": ""
            }
        ],
        "createdAt": "2023-08-25T04:04:32.912312Z",
        "updatedAt": "2023-08-25T04:04:32.912312Z"
    }
}"##;

const USER_GROUP_UPDATED: &str = r##"{
    "eventTime": "2023-08-25T04:04:32.962264Z",
    "groupId": "f265bde2-04cc-4856-9008-3db1d953a539"
}"##;

const USER_GROUP_DELETED: &str = r##"{
    "eventTime": "2023-08-25T06:40:35.971142Z",
    "groupId": "f265bde2-04cc-4856-9008-3db1d953a539"
}"##;

const USER_GROUP_MEMBER_ADDED: &str = r##"{
    "eventTime": "2023-08-25T04:04:32.962264Z",
    "groupMember": {
        "groupId": "f265bde2-04cc-4856-9008-3db1d953a539",
        "userId": "8e6a088f-9274-42c0-bb20-cee7913d144b"
    }
}"##;

const USER_GROUP_MEMBER_UPDATED: &str = r##"{
    "eventTime": "2023-08-25T04:04:32.962264Z",
    "groupMember": {
        "groupId": "f265bde2-04cc-4856-9008-3db1d953a539",
        "userId": "8e6a088f-9274-42c0-bb20-cee7913d144b"
    }
}"##;

const USER_GROUP_MEMBER_REMOVED: &str = r##"{
    "eventTime": "2023-08-25T04:04:32.962264Z",
    "groupMember": {
        "groupId": "f265bde2-04cc-4856-9008-3db1d953a539",
        "userId": "8e6a088f-9274-42c0-bb20-cee7913d144b"
    }
}"##;

const USER_GROUP_ADMIN_ADDED: &str = r##"{
    "eventTime": "2023-08-25T04:04:32.962264Z",
    "groupMember": {
        "groupId": "f265bde2-04cc-4856-9008-3db1d953a539",
        "userId": "8e6a088f-9274-42c0-bb20-cee7913d144b"
    }
}"##;

const USER_GROUP_ADMIN_REMOVED: &str = r##"{
    "eventTime": "2023-08-25T04:04:32.962264Z",
    "groupMember": {
        "groupId": "f265bde2-04cc-4856-9008-3db1d953a539",
        "userId": "8e6a088f-9274-42c0-bb20-cee7913d144b"
    }
}"##;

const VERIFICATION_TOKEN: &str = "traqbotverificationtoken";

const PING_BODY: &[u8] = br#"{"eventTime": "2019-05-07T04:50:48.582586882Z"}"#;

/// Headers by name, each name once: a later value takes the place of an
/// earlier one, whatever the case of the name.
struct Headers(Vec<(String, Vec<u8>)>);

impl Headers {
    fn new() -> Self {
        Headers(Vec::new())
    }

    fn insert(&mut self, name: &str, value: &[u8]) {
        match self.0.iter_mut().find(|(n, _)| n.eq_ignore_ascii_case(name)) {
            Some(entry) => entry.1 = value.to_vec(),
            None => self.0.push((name.to_string(), value.to_vec())),
        }
    }
}

fn as_slices(headers: &Headers) -> Vec<(&[u8], &[u8])> {
    headers.0.iter().map(|(n, v)| (n.as_bytes(), v.as_slice())).collect()
}

fn make_parser() -> RequestParser {
    RequestParser::new(VERIFICATION_TOKEN)
}

fn make_headers(event: &str) -> Headers {
    let mut headers = Headers::new();
    headers.insert("X-TRAQ-BOT-TOKEN", VERIFICATION_TOKEN.as_bytes());
    headers.insert("content-type", b"application/json");
    headers.insert("X-TRAQ-BOT-EVENT", event.as_bytes());
    headers
}

fn parse_kind(parser: &RequestParser, headers: &Headers, body: &[u8]) -> Result<Event, ErrorKind> {
    parser.parse(&as_slices(headers), body).map_err(|e| e.kind())
}

fn headers_kind(parser: &RequestParser, headers: &[(&[u8], &[u8])]) -> Result<EventKind, ErrorKind> {
    parser.parse_headers(headers).map_err(|e| e.kind())
}

fn ping_event() -> Event {
    Event::Ping(PingPayload { event_time: TimeStamp { unix_nanos: 1_557_204_648_582_586_882 } })
}

#[test]
fn request_parser_new() {
    let verification_token = "verification_token";
    let parser = RequestParser::new(verification_token);
    println!("{parser:?}");
}

#[test]
fn request_parser() {
    let verification_token = "verification_token";
    let parser = RequestParser::new(verification_token);
    println!("{:?}", parser);
}

#[test]
fn parse_failure() {
    let parser = make_parser();
    let mut headers = Headers::new();
    assert_eq!(parse_kind(&parser, &headers, b""), Err(ErrorKind::ContentTypeNotFound));
    headers.insert("content-type", b"text/plain");
    assert_eq!(parse_kind(&parser, &headers, b""), Err(ErrorKind::ContentTypeMismatch));
    headers.insert("content-type", b"application/json");
    assert_eq!(parse_kind(&parser, &headers, b""), Err(ErrorKind::BotTokenNotFound));
    headers.insert("X-TRAQ-BOT-TOKEN", "invalid　token".as_bytes());
    assert_eq!(parse_kind(&parser, &headers, b""), Err(ErrorKind::ReadBotTokenFailed));
    headers.insert("X-TRAQ-BOT-TOKEN", b"invalid_token");
    assert_eq!(parse_kind(&parser, &headers, b""), Err(ErrorKind::BotTokenMismatch));
    headers.insert("X-TRAQ-BOT-TOKEN", b"traqbotverificationtoken");
    assert_eq!(parse_kind(&parser, &headers, b""), Err(ErrorKind::BotEventNotFound));
    headers.insert("X-TRAQ-BOT-EVENT", "invalid　event".as_bytes());
    assert_eq!(parse_kind(&parser, &headers, b""), Err(ErrorKind::ReadBotEventFailed));
    headers.insert("X-TRAQ-BOT-EVENT", b"invalid_event");
    assert_eq!(parse_kind(&parser, &headers, b""), Err(ErrorKind::BotEventMismatch));
    headers.insert("X-TRAQ-BOT-EVENT", b"PING");
    assert_eq!(
        parse_kind(&parser, &headers, &[0, 159, 146, 150]),
        Err(ErrorKind::ReadBodyFailed)
    );
    assert_eq!(parse_kind(&parser, &headers, b""), Err(ErrorKind::ParseBodyFailed));
}

#[test]
fn fail_tests() {
    let parser = make_parser();
    let mut headers = Headers::new();
    assert_eq!(parse_kind(&parser, &headers, b""), Err(ErrorKind::ContentTypeNotFound));
    headers.insert("content-type", b"text/plain");
    assert_eq!(parse_kind(&parser, &headers, b""), Err(ErrorKind::ContentTypeMismatch));
    headers.insert("content-type", b"application/json");
    assert_eq!(parse_kind(&parser, &headers, b""), Err(ErrorKind::BotTokenNotFound));
    headers.insert("X-TRAQ-BOT-TOKEN", "invalidã€€token".as_bytes());
    assert_eq!(parse_kind(&parser, &headers, b""), Err(ErrorKind::ReadBotTokenFailed));
    headers.insert("X-TRAQ-BOT-TOKEN", b"invalid_token");
    assert_eq!(parse_kind(&parser, &headers, b""), Err(ErrorKind::BotTokenMismatch));
    headers.insert("X-TRAQ-BOT-TOKEN", b"traqbotverificationtoken");
    assert_eq!(parse_kind(&parser, &headers, b""), Err(ErrorKind::BotEventNotFound));
    headers.insert("X-TRAQ-BOT-EVENT", "invalidã€€event".as_bytes());
    assert_eq!(parse_kind(&parser, &headers, b""), Err(ErrorKind::ReadBotEventFailed));
    headers.insert("X-TRAQ-BOT-EVENT", b"invalid_event");
    assert_eq!(parse_kind(&parser, &headers, b""), Err(ErrorKind::BotEventMismatch));
    headers.insert("X-TRAQ-BOT-EVENT", b"PING");
    assert_eq!(parse_kind(&parser, &headers, b""), Err(ErrorKind::ParseBodyFailed));
}

#[test]
fn parse_ping() {
    let parser = make_parser();
    let kind = "PING";
    let headers = make_headers(kind);
    let body = PING;
    let event = parser.parse(&as_slices(&headers), body.as_bytes()).unwrap();
    let payload = traq_bot_http::json::parse_text::<PingPayload>(body).unwrap();
    assert_eq!(event, Event::Ping(payload));
}

#[test]
fn parse_joined() {
    let parser = make_parser();
    let kind = "JOINED";
    let headers = make_headers(kind);
    let body = JOINED;
    let event = parser.parse(&as_slices(&headers), body.as_bytes()).unwrap();
    let payload = traq_bot_http::json::parse_text::<JoinedPayload>(body).unwrap();
    assert_eq!(event, Event::Joined(payload));
}

#[test]
fn parse_left() {
    let parser = make_parser();
    let kind = "LEFT";
    let headers = make_headers(kind);
    let body = LEFT;
    let event = parser.parse(&as_slices(&headers), body.as_bytes()).unwrap();
    let payload = traq_bot_http::json::parse_text::<LeftPayload>(body).unwrap();
    assert_eq!(event, Event::Left(payload));
}

#[test]
fn parse_message_created() {
    let parser = make_parser();
    let kind = "MESSAGE_CREATED";
    let headers = make_headers(kind);
    let body = MESSAGE_CREATED;
    let event = parser.parse(&as_slices(&headers), body.as_bytes()).unwrap();
    let payload = traq_bot_http::json::parse_text::<MessageCreatedPayload>(body).unwrap();
    assert_eq!(event, Event::MessageCreated(payload));
}

#[test]
fn parse_message_deleted() {
    let parser = make_parser();
    let kind = "MESSAGE_DELETED";
    let headers = make_headers(kind);
    let body = MESSAGE_DELETED;
    let event = parser.parse(&as_slices(&headers), body.as_bytes()).unwrap();
    let payload = traq_bot_http::json::parse_text::<MessageDeletedPayload>(body).unwrap();
    assert_eq!(event, Event::MessageDeleted(payload));
}

#[test]
fn parse_message_updated() {
    let parser = make_parser();
    let kind = "MESSAGE_UPDATED";
    let headers = make_headers(kind);
    let body = MESSAGE_UPDATED;
    let event = parser.parse(&as_slices(&headers), body.as_bytes()).unwrap();
    let payload = traq_bot_http::json::parse_text::<MessageUpdatedPayload>(body).unwrap();
    assert_eq!(event, Event::MessageUpdated(payload));
}

#[test]
fn parse_direct_message_created() {
    let parser = make_parser();
    let kind = "DIRECT_MESSAGE_CREATED";
    let headers = make_headers(kind);
    let body = DIRECT_MESSAGE_CREATED;
    let event = parser.parse(&as_slices(&headers), body.as_bytes()).unwrap();
    let payload = traq_bot_http::json::parse_text::<DirectMessageCreatedPayload>(body).unwrap();
    assert_eq!(event, Event::DirectMessageCreated(payload));
}

#[test]
fn parse_direct_message_deleted() {
    let parser = make_parser();
    let kind = "DIRECT_MESSAGE_DELETED";
    let headers = make_headers(kind);
    let body = DIRECT_MESSAGE_DELETED;
    let event = parser.parse(&as_slices(&headers), body.as_bytes()).unwrap();
    let payload = traq_bot_http::json::parse_text::<DirectMessageDeletedPayload>(body).unwrap();
    assert_eq!(event, Event::DirectMessageDeleted(payload));
}

#[test]
fn parse_direct_message_updated() {
    let parser = make_parser();
    let kind = "DIRECT_MESSAGE_UPDATED";
    let headers = make_headers(kind);
    let body = DIRECT_MESSAGE_UPDATED;
    let event = parser.parse(&as_slices(&headers), body.as_bytes()).unwrap();
    let payload = traq_bot_http::json::parse_text::<DirectMessageUpdatedPayload>(body).unwrap();
    assert_eq!(event, Event::DirectMessageUpdated(payload));
}

#[test]
fn parse_bot_message_stamps_updated() {
    let parser = make_parser();
    let kind = "BOT_MESSAGE_STAMPS_UPDATED";
    let headers = make_headers(kind);
    let body = BOT_MESSAGE_STAMPS_UPDATED;
    let event = parser.parse(&as_slices(&headers), body.as_bytes()).unwrap();
    let payload = traq_bot_http::json::parse_text::<BotMessageStampsUpdatedPayload>(body).unwrap();
    assert_eq!(event, Event::BotMessageStampsUpdated(payload));
}

#[test]
fn parse_channel_created() {
    let parser = make_parser();
    let kind = "CHANNEL_CREATED";
    let headers = make_headers(kind);
    let body = CHANNEL_CREATED;
    let event = parser.parse(&as_slices(&headers), body.as_bytes()).unwrap();
    let payload = traq_bot_http::json::parse_text::<ChannelCreatedPayload>(body).unwrap();
    assert_eq!(event, Event::ChannelCreated(payload));
}

#[test]
fn parse_channel_topic_changed() {
    let parser = make_parser();
    let kind = "CHANNEL_TOPIC_CHANGED";
    let headers = make_headers(kind);
    let body = CHANNEL_TOPIC_CHANGED;
    let event = parser.parse(&as_slices(&headers), body.as_bytes()).unwrap();
    let payload = traq_bot_http::json::parse_text::<ChannelTopicChangedPayload>(body).unwrap();
    assert_eq!(event, Event::ChannelTopicChanged(payload));
}

#[test]
fn parse_user_created() {
    let parser = make_parser();
    let kind = "USER_CREATED";
    let headers = make_headers(kind);
    let body = USER_CREATED;
    let event = parser.parse(&as_slices(&headers), body.as_bytes()).unwrap();
    let payload = traq_bot_http::json::parse_text::<UserCreatedPayload>(body).unwrap();
    assert_eq!(event, Event::UserCreated(payload));
}

#[test]
fn parse_stamp_created() {
    let parser = make_parser();
    let kind = "STAMP_CREATED";
    let headers = make_headers(kind);
    let body = STAMP_CREATED;
    let event = parser.parse(&as_slices(&headers), body.as_bytes()).unwrap();
    let payload = traq_bot_http::json::parse_text::<StampCreatedPayload>(body).unwrap();
    assert_eq!(event, Event::StampCreated(payload));
}

#[test]
fn parse_tag_added() {
    let parser = make_parser();
    let kind = "TAG_ADDED";
    let headers = make_headers(kind);
    let body = TAG_ADDED;
    let event = parser.parse(&as_slices(&headers), body.as_bytes()).unwrap();
    let payload = traq_bot_http::json::parse_text::<TagAddedPayload>(body).unwrap();
    assert_eq!(event, Event::TagAdded(payload));
}

#[test]
fn parse_tag_removed() {
    let parser = make_parser();
    let kind = "TAG_REMOVED";
    let headers = make_headers(kind);
    let body = TAG_REMOVED;
    let event = parser.parse(&as_slices(&headers), body.as_bytes()).unwrap();
    let payload = traq_bot_http::json::parse_text::<TagRemovedPayload>(body).unwrap();
    assert_eq!(event, Event::TagRemoved(payload));
}

#[test]
fn parse_user_group_created() {
    let parser = make_parser();
    let kind = "USER_GROUP_CREATED";
    let headers = make_headers(kind);
    let body = USER_GROUP_CREATED;
    let event = parser.parse(&as_slices(&headers), body.as_bytes()).unwrap();
    let payload = traq_bot_http::json::parse_text::<UserGroupCreatedPayload>(body).unwrap();
    assert_eq!(event, Event::UserGroupCreated(payload));
}

#[test]
fn parse_user_group_updated() {
    let parser = make_parser();
    let kind = "USER_GROUP_UPDATED";
    let headers = make_headers(kind);
    let body = USER_GROUP_UPDATED;
    let event = parser.parse(&as_slices(&headers), body.as_bytes()).unwrap();
    let payload = traq_bot_http::json::parse_text::<UserGroupUpdatedPayload>(body).unwrap();
    assert_eq!(event, Event::UserGroupUpdated(payload));
}

#[test]
fn parse_user_group_deleted() {
    let parser = make_parser();
    let kind = "USER_GROUP_DELETED";
    let headers = make_headers(kind);
    let body = USER_GROUP_DELETED;
    let event = parser.parse(&as_slices(&headers), body.as_bytes()).unwrap();
    let payload = traq_bot_http::json::parse_text::<UserGroupDeletedPayload>(body).unwrap();
    assert_eq!(event, Event::UserGroupDeleted(payload));
}

#[test]
fn parse_user_group_member_added() {
    let parser = make_parser();
    let kind = "USER_GROUP_MEMBER_ADDED";
    let headers = make_headers(kind);
    let body = USER_GROUP_MEMBER_ADDED;
    let event = parser.parse(&as_slices(&headers), body.as_bytes()).unwrap();
    let payload = traq_bot_http::json::parse_text::<UserGroupMemberAddedPayload>(body).unwrap();
    assert_eq!(event, Event::UserGroupMemberAdded(payload));
}

#[test]
fn parse_user_group_member_updated() {
    let parser = make_parser();
    let kind = "USER_GROUP_MEMBER_UPDATED";
    let headers = make_headers(kind);
    let body = USER_GROUP_MEMBER_UPDATED;
    let event = parser.parse(&as_slices(&headers), body.as_bytes()).unwrap();
    let payload = traq_bot_http::json::parse_text::<UserGroupMemberUpdatedPayload>(body).unwrap();
    assert_eq!(event, Event::UserGroupMemberUpdated(payload));
}

#[test]
fn parse_user_group_member_removed() {
    let parser = make_parser();
    let kind = "USER_GROUP_MEMBER_REMOVED";
    let headers = make_headers(kind);
    let body = USER_GROUP_MEMBER_REMOVED;
    let event = parser.parse(&as_slices(&headers), body.as_bytes()).unwrap();
    let payload = traq_bot_http::json::parse_text::<UserGroupMemberRemovedPayload>(body).unwrap();
    assert_eq!(event, Event::UserGroupMemberRemoved(payload));
}

#[test]
fn parse_user_group_admin_added() {
    let parser = make_parser();
    let kind = "USER_GROUP_ADMIN_ADDED";
    let headers = make_headers(kind);
    let body = USER_GROUP_ADMIN_ADDED;
    let event = parser.parse(&as_slices(&headers), body.as_bytes()).unwrap();
    let payload = traq_bot_http::json::parse_text::<UserGroupAdminAddedPayload>(body).unwrap();
    assert_eq!(event, Event::UserGroupAdminAdded(payload));
}

#[test]
fn parse_user_group_admin_removed() {
    let parser = make_parser();
    let kind = "USER_GROUP_ADMIN_REMOVED";
    let headers = make_headers(kind);
    let body = USER_GROUP_ADMIN_REMOVED;
    let event = parser.parse(&as_slices(&headers), body.as_bytes()).unwrap();
    let payload = traq_bot_http::json::parse_text::<UserGroupAdminRemovedPayload>(body).unwrap();
    assert_eq!(event, Event::UserGroupAdminRemoved(payload));
}

#[test]
fn parser_ping_test() {
    let parser = make_parser();
    let headers = make_headers("PING");
    let body = PING.to_string();
    let event = parser.parse(&as_slices(&headers), body.as_bytes()).unwrap();
    let payload: PingPayload = body.parse().unwrap();
    assert_eq!(event, Event::Ping(payload));
}

#[test]
fn parser_joined_test() {
    let parser = make_parser();
    let headers = make_headers("JOINED");
    let body = JOINED.to_string();
    let event = parser.parse(&as_slices(&headers), body.as_bytes()).unwrap();
    let payload: JoinedPayload = body.parse().unwrap();
    assert_eq!(event, Event::Joined(payload));
}

#[test]
fn parser_left_test() {
    let parser = make_parser();
    let headers = make_headers("LEFT");
    let body = LEFT.to_string();
    let event = parser.parse(&as_slices(&headers), body.as_bytes()).unwrap();
    let payload: LeftPayload = body.parse().unwrap();
    assert_eq!(event, Event::Left(payload));
}

#[test]
fn parser_message_created_test() {
    let parser = make_parser();
    let headers = make_headers("MESSAGE_CREATED");
    let body = MESSAGE_CREATED.to_string();
    let event = parser.parse(&as_slices(&headers), body.as_bytes()).unwrap();
    let payload: MessageCreatedPayload = body.parse().unwrap();
    assert_eq!(event, Event::MessageCreated(payload));
}

#[test]
fn parser_message_deleted_test() {
    let parser = make_parser();
    let headers = make_headers("MESSAGE_DELETED");
    let body = MESSAGE_DELETED.to_string();
    let event = parser.parse(&as_slices(&headers), body.as_bytes()).unwrap();
    let payload: MessageDeletedPayload = body.parse().unwrap();
    assert_eq!(event, Event::MessageDeleted(payload));
}

#[test]
fn parser_message_updated_test() {
    let parser = make_parser();
    let headers = make_headers("MESSAGE_UPDATED");
    let body = MESSAGE_UPDATED.to_string();
    let event = parser.parse(&as_slices(&headers), body.as_bytes()).unwrap();
    let payload: MessageUpdatedPayload = body.parse().unwrap();
    assert_eq!(event, Event::MessageUpdated(payload));
}

#[test]
fn parser_direct_message_created_test() {
    let parser = make_parser();
    let headers = make_headers("DIRECT_MESSAGE_CREATED");
    let body = DIRECT_MESSAGE_CREATED.to_string();
    let event = parser.parse(&as_slices(&headers), body.as_bytes()).unwrap();
    let payload: DirectMessageCreatedPayload = body.parse().unwrap();
    assert_eq!(event, Event::DirectMessageCreated(payload));
}

#[test]
fn parser_direct_message_deleted_test() {
    let parser = make_parser();
    let headers = make_headers("DIRECT_MESSAGE_DELETED");
    let body = DIRECT_MESSAGE_DELETED.to_string();
    let event = parser.parse(&as_slices(&headers), body.as_bytes()).unwrap();
    let payload: DirectMessageDeletedPayload = body.parse().unwrap();
    assert_eq!(event, Event::DirectMessageDeleted(payload));
}

#[test]
fn parser_direct_message_updated_test() {
    let parser = make_parser();
    let headers = make_headers("DIRECT_MESSAGE_UPDATED");
    let body = DIRECT_MESSAGE_UPDATED.to_string();
    let event = parser.parse(&as_slices(&headers), body.as_bytes()).unwrap();
    let payload: DirectMessageUpdatedPayload = body.parse().unwrap();
    assert_eq!(event, Event::DirectMessageUpdated(payload));
}

#[test]
fn parser_bot_message_stamps_updated_test() {
    let parser = make_parser();
    let headers = make_headers("BOT_MESSAGE_STAMPS_UPDATED");
    let body = BOT_MESSAGE_STAMPS_UPDATED.to_string();
    let event = parser.parse(&as_slices(&headers), body.as_bytes()).unwrap();
    let payload: BotMessageStampsUpdatedPayload = body.parse().unwrap();
    assert_eq!(event, Event::BotMessageStampsUpdated(payload));
}

#[test]
fn parser_channel_created_test() {
    let parser = make_parser();
    let headers = make_headers("CHANNEL_CREATED");
    let body = CHANNEL_CREATED.to_string();
    let event = parser.parse(&as_slices(&headers), body.as_bytes()).unwrap();
    let payload: ChannelCreatedPayload = body.parse().unwrap();
    assert_eq!(event, Event::ChannelCreated(payload));
}

#[test]
fn parser_channel_topic_changed_test() {
    let parser = make_parser();
    let headers = make_headers("CHANNEL_TOPIC_CHANGED");
    let body = CHANNEL_TOPIC_CHANGED.to_string();
    let event = parser.parse(&as_slices(&headers), body.as_bytes()).unwrap();
    let payload: ChannelTopicChangedPayload = body.parse().unwrap();
    assert_eq!(event, Event::ChannelTopicChanged(payload));
}

#[test]
fn parser_user_created_test() {
    let parser = make_parser();
    let headers = make_headers("USER_CREATED");
    let body = USER_CREATED.to_string();
    let event = parser.parse(&as_slices(&headers), body.as_bytes()).unwrap();
    let payload: UserCreatedPayload = body.parse().unwrap();
    assert_eq!(event, Event::UserCreated(payload));
}

#[test]
fn parser_tag_added_test() {
    let parser = make_parser();
    let headers = make_headers("TAG_ADDED");
    let body = TAG_ADDED.to_string();
    let event = parser.parse(&as_slices(&headers), body.as_bytes()).unwrap();
    let payload: TagAddedPayload = body.parse().unwrap();
    assert_eq!(event, Event::TagAdded(payload));
}

#[test]
fn parser_tag_removed_test() {
    let parser = make_parser();
    let headers = make_headers("TAG_REMOVED");
    let body = TAG_REMOVED.to_string();
    let event = parser.parse(&as_slices(&headers), body.as_bytes()).unwrap();
    let payload: TagRemovedPayload = body.parse().unwrap();
    assert_eq!(event, Event::TagRemoved(payload));
}

// The scenarios of a whole request.

fn scenario_headers<'a>(content_type: &'a [u8], token: &'a [u8], event: &'a [u8]) -> Vec<(&'a [u8], &'a [u8])> {
    vec![
        (b"Content-Type".as_slice(), content_type),
        (b"X-TRAQ-BOT-TOKEN".as_slice(), token),
        (b"X-TRAQ-BOT-EVENT".as_slice(), event),
    ]
}

#[test]
fn scenario_ping_is_parsed() {
    let parser = RequestParser::new("tok");
    let headers = scenario_headers(b"application/json", b"tok", b"PING");
    assert_eq!(parser.parse(&headers, PING_BODY).unwrap(), ping_event());
}

#[test]
fn scenario_other_secret_is_a_token_mismatch() {
    let parser = RequestParser::new("other");
    let headers = scenario_headers(b"application/json", b"tok", b"PING");
    assert_eq!(
        parser.parse(&headers, PING_BODY).map_err(|e| e.kind()),
        Err(ErrorKind::BotTokenMismatch)
    );
}

#[test]
fn scenario_text_plain_is_a_content_type_mismatch() {
    let parser = RequestParser::new("tok");
    let headers = scenario_headers(b"text/plain", b"tok", b"PING");
    assert_eq!(
        parser.parse(&headers, PING_BODY).map_err(|e| e.kind()),
        Err(ErrorKind::ContentTypeMismatch)
    );
}

#[test]
fn scenario_unknown_event_is_an_event_mismatch() {
    let parser = RequestParser::new("tok");
    let headers = scenario_headers(b"application/json", b"tok", b"NOT_A_REAL_EVENT");
    assert_eq!(
        parser.parse(&headers, PING_BODY).map_err(|e| e.kind()),
        Err(ErrorKind::BotEventMismatch)
    );
}

#[test]
fn scenario_body_that_is_not_json_fails_to_parse() {
    let parser = RequestParser::new("tok");
    let headers = scenario_headers(b"application/json", b"tok", b"PING");
    assert_eq!(
        parser.parse(&headers, b"not json").map_err(|e| e.kind()),
        Err(ErrorKind::ParseBodyFailed)
    );
}

#[test]
fn scenario_body_that_is_not_utf8_fails_to_read() {
    let parser = RequestParser::new("tok");
    let headers = scenario_headers(b"application/json", b"tok", b"PING");
    assert_eq!(
        parser.parse(&headers, &[0, 159, 146, 150]).map_err(|e| e.kind()),
        Err(ErrorKind::ReadBodyFailed)
    );
}

// The order of the checks.

#[test]
fn missing_content_type_and_token_reports_the_content_type() {
    let parser = make_parser();
    assert_eq!(headers_kind(&parser, &[]), Err(ErrorKind::ContentTypeNotFound));
    let only_event: Vec<(&[u8], &[u8])> = vec![(b"X-TRAQ-BOT-EVENT", b"PING")];
    assert_eq!(headers_kind(&parser, &only_event), Err(ErrorKind::ContentTypeNotFound));
}

#[test]
fn content_type_errors_come_before_token_errors() {
    let parser = make_parser();
    let headers = scenario_headers(b"text/plain", b"wrong", b"NOPE");
    assert_eq!(headers_kind(&parser, &headers), Err(ErrorKind::ContentTypeMismatch));
    let headers = scenario_headers(&[0xff], &[0xff], &[0xff]);
    assert_eq!(headers_kind(&parser, &headers), Err(ErrorKind::ReadContentTypeFailed));
    let without_content_type: Vec<(&[u8], &[u8])> =
        vec![(b"X-TRAQ-BOT-TOKEN", &[0xff]), (b"X-TRAQ-BOT-EVENT", b"PING")];
    assert_eq!(headers_kind(&parser, &without_content_type), Err(ErrorKind::ContentTypeNotFound));
}

#[test]
fn token_errors_come_before_event_errors() {
    let parser = make_parser();
    let headers = scenario_headers(b"application/json", b"wrong", b"NOPE");
    assert_eq!(headers_kind(&parser, &headers), Err(ErrorKind::BotTokenMismatch));
    let headers = scenario_headers(b"application/json", &[0xff], &[0xff]);
    assert_eq!(headers_kind(&parser, &headers), Err(ErrorKind::ReadBotTokenFailed));
    let without_token: Vec<(&[u8], &[u8])> =
        vec![(b"Content-Type", b"application/json"), (b"X-TRAQ-BOT-EVENT", &[0xff])];
    assert_eq!(headers_kind(&parser, &without_token), Err(ErrorKind::BotTokenNotFound));
}

#[test]
fn headers_are_checked_before_the_body() {
    let parser = make_parser();
    let headers = scenario_headers(b"application/json", b"wrong", b"PING");
    assert_eq!(
        parser.parse(&headers, &[0, 159, 146, 150]).map_err(|e| e.kind()),
        Err(ErrorKind::BotTokenMismatch)
    );
}

// No hidden state.

#[test]
fn validation_is_repeatable() {
    let parser = make_parser();
    let good = make_headers("MESSAGE_CREATED");
    let bad = make_headers("message_created");
    for _ in 0..3 {
        assert_eq!(headers_kind(&parser, &as_slices(&good)), Ok(EventKind::MessageCreated));
        assert_eq!(headers_kind(&parser, &as_slices(&bad)), Err(ErrorKind::BotEventMismatch));
    }
    let clone = parser.clone();
    assert_eq!(headers_kind(&clone, &as_slices(&good)), Ok(EventKind::MessageCreated));
}

// Header names.

#[test]
fn header_names_are_recognised_in_any_case() {
    let parser = make_parser();
    for content_type in ["content-type", "Content-Type", "CONTENT-TYPE", "cOnTeNt-TyPe"] {
        for token in ["x-traq-bot-token", "X-TRAQ-BOT-TOKEN", "X-Traq-Bot-Token"] {
            for event in ["x-traq-bot-event", "X-TRAQ-BOT-EVENT", "X-Traq-Bot-Event"] {
                let headers: Vec<(&[u8], &[u8])> = vec![
                    (content_type.as_bytes(), b"application/json"),
                    (token.as_bytes(), VERIFICATION_TOKEN.as_bytes()),
                    (event.as_bytes(), b"LEFT"),
                ];
                assert_eq!(headers_kind(&parser, &headers), Ok(EventKind::Left));
            }
        }
    }
}

#[test]
fn header_names_that_only_resemble_are_not_recognised() {
    let parser = make_parser();
    let headers: Vec<(&[u8], &[u8])> = vec![
        (b"Content_Type", b"application/json"),
        (b"Content-Type ", b"application/json"),
        (b"Content-Typ", b"application/json"),
        // The Kelvin sign is a capital letter whose small letter is `k`,
        // but it is no ASCII letter.
        ("X-TRAQ-BOT-TO\u{212a}EN".as_bytes(), VERIFICATION_TOKEN.as_bytes()),
    ];
    assert_eq!(headers_kind(&parser, &headers), Err(ErrorKind::ContentTypeNotFound));
    let headers: Vec<(&[u8], &[u8])> = vec![
        (b"Content-Type", b"application/json"),
        ("X-TRAQ-BOT-TO\u{212a}EN".as_bytes(), VERIFICATION_TOKEN.as_bytes()),
    ];
    assert_eq!(headers_kind(&parser, &headers), Err(ErrorKind::BotTokenNotFound));
}

#[test]
fn header_names_that_are_not_utf8_are_passed_over() {
    let parser = make_parser();
    let headers: Vec<(&[u8], &[u8])> = vec![
        (&[0xff, 0xfe], b"junk"),
        (b"Content-Type", b"application/json"),
        (&[0xc3], &[0xff]),
        (b"X-TRAQ-BOT-TOKEN", VERIFICATION_TOKEN.as_bytes()),
        (b"X-TRAQ-BOT-EVENT", b"JOINED"),
    ];
    assert_eq!(headers_kind(&parser, &headers), Ok(EventKind::Joined));
}

#[test]
fn other_headers_do_not_matter() {
    let parser = make_parser();
    let headers: Vec<(&[u8], &[u8])> = vec![
        (b"Host", b"example.com"),
        (b"Content-Type", b"application/json"),
        (b"Content-Length", b"42"),
        (b"X-TRAQ-BOT-TOKEN", VERIFICATION_TOKEN.as_bytes()),
        (b"X-TRAQ-BOT-REQUEST-ID", b"abc"),
        (b"X-TRAQ-BOT-EVENT", b"USER_CREATED"),
    ];
    assert_eq!(headers_kind(&parser, &headers), Ok(EventKind::UserCreated));
}

// This library's choice for a name that occurs more than once: the last
// occurrence in the list counts. The protocol itself leaves the case open.
#[test]
fn of_a_repeated_header_the_last_occurrence_counts() {
    let parser = make_parser();
    let headers: Vec<(&[u8], &[u8])> = vec![
        (b"Content-Type", b"text/plain"),
        (b"X-TRAQ-BOT-TOKEN", VERIFICATION_TOKEN.as_bytes()),
        (b"X-TRAQ-BOT-EVENT", b"PING"),
        (b"content-type", b"application/json"),
        (b"x-traq-bot-event", b"LEFT"),
    ];
    assert_eq!(headers_kind(&parser, &headers), Ok(EventKind::Left));
    let headers: Vec<(&[u8], &[u8])> = vec![
        (b"Content-Type", b"application/json"),
        (b"X-TRAQ-BOT-TOKEN", VERIFICATION_TOKEN.as_bytes()),
        (b"X-TRAQ-BOT-EVENT", b"PING"),
        (b"X-TRAQ-BOT-TOKEN", b"stale"),
    ];
    assert_eq!(headers_kind(&parser, &headers), Err(ErrorKind::BotTokenMismatch));
    let headers: Vec<(&[u8], &[u8])> = vec![
        (b"Content-Type", &[0xff]),
        (b"Content-Type", b"application/json"),
        (b"X-TRAQ-BOT-TOKEN", VERIFICATION_TOKEN.as_bytes()),
        (b"X-TRAQ-BOT-EVENT", b"PING"),
    ];
    assert_eq!(headers_kind(&parser, &headers), Ok(EventKind::Ping));
}

// The content type.

#[test]
fn content_type_has_to_start_with_application_json() {
    let parser = make_parser();
    let ok: [&[u8]; 3] = [
        b"application/json",
        b"application/json; charset=utf-8",
        "application/json; note=\u{3042}".as_bytes(),
    ];
    for value in ok {
        let headers = scenario_headers(value, VERIFICATION_TOKEN.as_bytes(), b"PING");
        assert_eq!(headers_kind(&parser, &headers), Ok(EventKind::Ping));
    }
    let wrong: [&[u8]; 6] = [
        b"",
        b"application/jso",
        b" application/json",
        b"Application/json",
        b"APPLICATION/JSON",
        b"text/plain; application/json",
    ];
    for value in wrong {
        let headers = scenario_headers(value, VERIFICATION_TOKEN.as_bytes(), b"PING");
        assert_eq!(headers_kind(&parser, &headers), Err(ErrorKind::ContentTypeMismatch));
    }
}

#[test]
fn content_type_that_is_not_utf8_fails_to_read() {
    let parser = make_parser();
    let value: &[u8] = b"application/json\xff";
    let headers = scenario_headers(value, VERIFICATION_TOKEN.as_bytes(), b"PING");
    assert_eq!(headers_kind(&parser, &headers), Err(ErrorKind::ReadContentTypeFailed));
}

// The token.

#[test]
fn token_is_compared_byte_for_byte() {
    let parser = make_parser();
    let wrong: [&[u8]; 5] = [
        b"",
        b"traqbotverificationtoke",
        b"traqbotverificationtoken ",
        b"TRAQBOTVERIFICATIONTOKEN",
        b"traqbotverificationtokenn",
    ];
    for value in wrong {
        let headers = scenario_headers(b"application/json", value, b"PING");
        assert_eq!(headers_kind(&parser, &headers), Err(ErrorKind::BotTokenMismatch));
    }
}

#[test]
fn token_may_hold_spaces_and_tabs() {
    let parser = RequestParser::new("a b\tc~!");
    let headers = scenario_headers(b"application/json", b"a b\tc~!", b"PING");
    assert_eq!(headers_kind(&parser, &headers), Ok(EventKind::Ping));
}

#[test]
fn token_with_a_byte_outside_the_range_fails_to_read() {
    // Also where the parser's own token holds the same bytes.
    for token in ["tok\n", "tok\u{7f}", "t\u{0}k", "tök", "\u{1f}"] {
        let parser = RequestParser::new(token);
        let headers = scenario_headers(b"application/json", token.as_bytes(), b"PING");
        assert_eq!(headers_kind(&parser, &headers), Err(ErrorKind::ReadBotTokenFailed));
    }
    let parser = make_parser();
    let headers = scenario_headers(b"application/json", &[0x74, 0xff], b"PING");
    assert_eq!(headers_kind(&parser, &headers), Err(ErrorKind::ReadBotTokenFailed));
}

// The event.

#[test]
fn event_names_are_matched_exactly() {
    let parser = make_parser();
    for name in ["ping", "Ping", "PING ", " PING", "", "MESSAGE-CREATED", "MESSAGECREATED"] {
        let headers =
            scenario_headers(b"application/json", VERIFICATION_TOKEN.as_bytes(), name.as_bytes());
        assert_eq!(headers_kind(&parser, &headers), Err(ErrorKind::BotEventMismatch));
    }
}

#[test]
fn event_with_a_byte_outside_the_range_fails_to_read() {
    let parser = make_parser();
    let values: [&[u8]; 4] = [b"PING\n", b"PING\x7f", b"PING\xff", "PIN\u{3000}G".as_bytes()];
    for value in values {
        let headers = scenario_headers(b"application/json", VERIFICATION_TOKEN.as_bytes(), value);
        assert_eq!(headers_kind(&parser, &headers), Err(ErrorKind::ReadBotEventFailed));
    }
}

#[test]
fn valid_header_value_accepts_visible_ascii_space_and_tab() {
    use_valid_header_value("", true);
    use_valid_header_value(" !~", true);
    use_valid_header_value("a\tb", true);
    use_valid_header_value("a\nb", false);
    use_valid_header_value("\u{7f}", false);
    use_valid_header_value("\u{1f}", false);
    use_valid_header_value("é", false);
}

fn use_valid_header_value(value: &str, expected: bool) {
    assert_eq!(traq_bot_http::parser::valid_header_value(value), expected, "{value:?}");
}

#[test]
fn find_header_gives_the_last_value_under_a_name() {
    let headers: Vec<(&[u8], &[u8])> =
        vec![(b"a", b"1"), (b"B", b"2"), (b"A", b"3"), (b"c", b"4")];
    assert_eq!(traq_bot_http::parser::find_header(&headers, b"a"), Some(b"3".as_slice()));
    assert_eq!(traq_bot_http::parser::find_header(&headers, b"b"), Some(b"2".as_slice()));
    assert_eq!(traq_bot_http::parser::find_header(&headers, b"d"), None);
    assert_eq!(traq_bot_http::parser::find_header(&[], b"a"), None);
}

// The body.

#[test]
fn body_has_to_describe_the_payload_of_the_event() {
    let parser = make_parser();
    // A body that is JSON, and even the payload of another event.
    let headers = make_headers("JOINED");
    assert_eq!(parse_kind(&parser, &headers, PING_BODY), Err(ErrorKind::ParseBodyFailed));
    let headers = make_headers("PING");
    for body in ["", "null", "[]", "{}", r#"{"eventTime": 1}"#, r#"{"eventtime": "2019-05-07T04:50:48Z"}"#, r#"{"eventTime": "yesterday"}"#, r#"{"eventTime": "2019-05-07T04:50:48Z"} x"#] {
        assert_eq!(parse_kind(&parser, &headers, body.as_bytes()), Err(ErrorKind::ParseBodyFailed), "{body}");
    }
}

#[test]
fn body_may_hold_fields_that_are_not_known() {
    let parser = make_parser();
    let headers = make_headers("PING");
    let body = br#"{"more": [1, 2.5, null], "eventTime": "2019-05-07T04:50:48.582586882Z"}"#;
    assert_eq!(parse_kind(&parser, &headers, body), Ok(ping_event()));
}

#[test]
fn parse_body_decodes_for_the_given_kind() {
    let text = std::str::from_utf8(PING_BODY).unwrap();
    assert_eq!(traq_bot_http::parser::parse_body(EventKind::Ping, text).unwrap(), ping_event());
    assert_eq!(
        traq_bot_http::parser::parse_body(EventKind::Left, text).map_err(|e| e.kind()),
        Err(ErrorKind::ParseBodyFailed)
    );
}

#[test]
fn parsed_event_has_the_kind_of_the_header() {
    let parser = make_parser();
    let headers = make_headers("TAG_ADDED");
    let event = parser.parse(&as_slices(&headers), TAG_ADDED.as_bytes()).unwrap();
    assert_eq!(event.kind(), EventKind::TagAdded);
    assert!(matches!(event, Event::TagAdded(_)));
}
