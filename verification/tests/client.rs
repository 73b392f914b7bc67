use blog_core::api::{Method, Operation};
use blog_core::browser::{classify_reply, AuthData, BlogApp, ReplyKind};
use blog_core::cli::{is_token_invalid, CliError, Command};
use blog_core::clock::{MAX_MILLIS, MIN_MILLIS};
use blog_core::client::{
    authorization_value, get_transport, into_domain_post, into_posts_collection, judge_status,
    posts_request, timestamp_to_datetime, to_signed, to_unsigned, BlogClient, BlogClientError,
    HttpVerdict, Transport,
};
use blog_core::grpc_api::{Code, GetPostsRequest, GetPostsResponse, Post, Status};
use blog_core::grpc_service::{bearer_token, to_grpc_post, to_post_response};
use blog_core::post::{default_limit, default_offset};

fn wire_post(id: i64, created_at: i64, updated_at: i64) -> Post {
    Post {
        id,
        title: format!("t{id}"),
        content: format!("c{id}"),
        author_id: 1,
        created_at,
        updated_at,
    }
}

#[test]
fn transport_defaults_to_the_local_server() {
    assert_eq!(get_transport(false, &None), Transport::Http("http://127.0.0.1:8080".to_string()));
    assert_eq!(get_transport(true, &None), Transport::Grpc("http://127.0.0.1:50051".to_string()));
    let server = Some("http://blog.example:9000".to_string());
    assert_eq!(
        get_transport(false, &server),
        Transport::Http("http://blog.example:9000".to_string())
    );
    assert_eq!(
        get_transport(true, &server),
        Transport::Grpc("http://blog.example:9000".to_string())
    );
}

#[test]
fn session_keeps_the_token() {
    let mut client = BlogClient::new(Transport::Http("http://h".to_string()));
    assert_eq!(client.transport(), &Transport::Http("http://h".to_string()));
    assert_eq!(client.get_token(), None);
    assert_eq!(client.require_token(), Err(BlogClientError::TokenNotSet));
    client.set_token("abc".to_string());
    assert_eq!(client.get_token(), Some("abc"));
    assert_eq!(client.require_token(), Ok("abc"));
    client.set_token("def".to_string());
    assert_eq!(client.get_token(), Some("def"));
}

#[test]
fn default_window_is_ten_from_the_start() {
    assert_eq!(default_limit(), 10);
    assert_eq!(default_offset(), 0);
}

#[test]
fn each_operation_reads_its_own_statuses() {
    let failure = |e: BlogClientError| HttpVerdict::Failure(e);
    assert_eq!(judge_status(Operation::Register, 201), HttpVerdict::Success);
    assert_eq!(judge_status(Operation::Register, 409), failure(BlogClientError::UserAlreadyExists));
    assert_eq!(judge_status(Operation::Register, 200), HttpVerdict::Unexpected);
    assert_eq!(judge_status(Operation::Login, 200), HttpVerdict::Success);
    assert_eq!(judge_status(Operation::Login, 401), failure(BlogClientError::InvalidCredentials));
    assert_eq!(judge_status(Operation::Login, 409), HttpVerdict::Unexpected);
    assert_eq!(judge_status(Operation::CreatePost, 201), HttpVerdict::Success);
    assert_eq!(judge_status(Operation::CreatePost, 401), failure(BlogClientError::InvalidToken));
    assert_eq!(judge_status(Operation::CreatePost, 403), HttpVerdict::Unexpected);
    assert_eq!(judge_status(Operation::GetPost, 200), HttpVerdict::Success);
    assert_eq!(judge_status(Operation::GetPost, 404), failure(BlogClientError::NotFound));
    assert_eq!(judge_status(Operation::GetPost, 401), HttpVerdict::Unexpected);
    assert_eq!(judge_status(Operation::UpdatePost, 200), HttpVerdict::Success);
    assert_eq!(judge_status(Operation::UpdatePost, 401), failure(BlogClientError::InvalidToken));
    assert_eq!(judge_status(Operation::UpdatePost, 403), failure(BlogClientError::Forbidden));
    assert_eq!(judge_status(Operation::UpdatePost, 404), HttpVerdict::Unexpected);
    assert_eq!(judge_status(Operation::DeletePost, 204), HttpVerdict::Success);
    assert_eq!(judge_status(Operation::DeletePost, 401), failure(BlogClientError::InvalidToken));
    assert_eq!(judge_status(Operation::DeletePost, 403), failure(BlogClientError::Forbidden));
    assert_eq!(judge_status(Operation::DeletePost, 200), HttpVerdict::Unexpected);
    assert_eq!(judge_status(Operation::GetPosts, 200), HttpVerdict::Success);
    assert_eq!(judge_status(Operation::GetPosts, 500), HttpVerdict::Unexpected);
}

#[test]
fn rpc_status_becomes_a_client_error() {
    let status = |code: Code| Status { code, message: "why".to_string() };
    assert_eq!(
        BlogClientError::from_status(status(Code::AlreadyExists)),
        BlogClientError::UserAlreadyExists
    );
    assert_eq!(BlogClientError::from_status(status(Code::NotFound)), BlogClientError::NotFound);
    assert_eq!(
        BlogClientError::from_status(status(Code::Unauthenticated)),
        BlogClientError::InvalidToken
    );
    assert_eq!(
        BlogClientError::from_status(status(Code::PermissionDenied)),
        BlogClientError::Forbidden
    );
    assert_eq!(
        BlogClientError::from_status(status(Code::Internal)),
        BlogClientError::UnexpectedGrpcResponse { status_code: 13, message: "why".to_string() }
    );
    assert_eq!(
        BlogClientError::from_status(status(Code::Unavailable)),
        BlogClientError::UnexpectedGrpcResponse { status_code: 14, message: "why".to_string() }
    );
}

#[test]
fn codes_have_their_wire_numbers() {
    let codes = [
        Code::Okay,
        Code::Cancelled,
        Code::Unknown,
        Code::InvalidArgument,
        Code::DeadlineExceeded,
        Code::NotFound,
        Code::AlreadyExists,
        Code::PermissionDenied,
        Code::ResourceExhausted,
        Code::FailedPrecondition,
        Code::Aborted,
        Code::OutOfRange,
        Code::Unimplemented,
        Code::Internal,
        Code::Unavailable,
        Code::DataLoss,
        Code::Unauthenticated,
    ];
    for (number, code) in codes.iter().enumerate() {
        assert_eq!(code.number(), number as u16);
        assert_eq!(Code::from_number(number as u16), *code);
    }
    assert_eq!(Code::from_number(17), Code::Unknown);
    assert_eq!(Code::from_number(u16::MAX), Code::Unknown);
}

#[test]
fn authorization_value_round_trips() {
    assert_eq!(authorization_value("abc.def.ghi"), "Bearer abc.def.ghi");
    assert_eq!(bearer_token(&authorization_value("abc.def.ghi")), Some("abc.def.ghi"));
    assert_eq!(authorization_value(""), "Bearer ");
}

#[test]
fn timestamps_outside_the_calendar_are_refused() {
    assert_eq!(timestamp_to_datetime(0), Ok(0));
    assert_eq!(timestamp_to_datetime(947_638_923_004), Ok(947_638_923_004));
    assert_eq!(timestamp_to_datetime(-1), Ok(-1));
    assert_eq!(timestamp_to_datetime(MIN_MILLIS), Ok(MIN_MILLIS));
    assert_eq!(timestamp_to_datetime(MAX_MILLIS), Ok(MAX_MILLIS));
    assert_eq!(
        timestamp_to_datetime(MIN_MILLIS - 1),
        Err(BlogClientError::IncorrectTimestamp(MIN_MILLIS - 1))
    );
    assert_eq!(
        timestamp_to_datetime(MAX_MILLIS + 1),
        Err(BlogClientError::IncorrectTimestamp(MAX_MILLIS + 1))
    );
    assert_eq!(MIN_MILLIS, -8_334_601_228_800_000);
    assert_eq!(MAX_MILLIS, 8_210_266_876_799_999);
    assert_eq!(timestamp_to_datetime(i64::MAX), Err(BlogClientError::IncorrectTimestamp(i64::MAX)));
    assert_eq!(timestamp_to_datetime(i64::MIN), Err(BlogClientError::IncorrectTimestamp(i64::MIN)));
}

#[test]
fn wire_post_becomes_a_domain_post() {
    let post = into_domain_post(wire_post(4, 1_000, 2_000)).unwrap();
    assert_eq!(post.id, 4);
    assert_eq!(post.title, "t4");
    assert_eq!(post.content, "c4");
    assert_eq!(post.author_id, 1);
    assert_eq!(post.created_at, 1_000);
    assert_eq!(post.updated_at, 2_000);
    assert_eq!(to_grpc_post(post), wire_post(4, 1_000, 2_000));
    assert_eq!(
        into_domain_post(wire_post(4, i64::MAX, i64::MIN)),
        Err(BlogClientError::IncorrectTimestamp(i64::MAX))
    );
    assert_eq!(
        into_domain_post(wire_post(4, 0, i64::MIN)),
        Err(BlogClientError::IncorrectTimestamp(i64::MIN))
    );
    let domain = into_domain_post(wire_post(5, 1, 2)).unwrap();
    assert_eq!(to_post_response(domain).post, Some(wire_post(5, 1, 2)));
}

#[test]
fn listing_reply_becomes_a_collection() {
    let response = GetPostsResponse {
        posts: vec![wire_post(3, 30, 31), wire_post(2, 20, 21), wire_post(1, 10, 11)],
        limit: 10,
        offset: 0,
        total_posts_count: 3,
    };
    let collection = into_posts_collection(response).unwrap();
    let ids: Vec<i64> = collection.posts.iter().map(|p| p.id).collect();
    assert_eq!(ids, vec![3, 2, 1]);
    assert_eq!(collection.posts[1].title, "t2");
    assert_eq!(collection.limit, 10);
    assert_eq!(collection.offset, 0);
    assert_eq!(collection.total_posts, 3);
    let empty =
        GetPostsResponse { posts: vec![], limit: -1, offset: 5, total_posts_count: 0 };
    let collection = into_posts_collection(empty).unwrap();
    assert!(collection.posts.is_empty());
    assert_eq!(collection.limit, u64::MAX);
    assert_eq!(collection.offset, 5);
}

#[test]
fn first_bad_timestamp_stops_the_conversion() {
    let response = GetPostsResponse {
        posts: vec![wire_post(3, 30, 31), wire_post(2, i64::MAX, 21), wire_post(1, i64::MIN, 11)],
        limit: 10,
        offset: 0,
        total_posts_count: 3,
    };
    assert_eq!(
        into_posts_collection(response),
        Err(BlogClientError::IncorrectTimestamp(i64::MAX))
    );
}

#[test]
fn counts_wrap_between_signed_and_unsigned() {
    assert_eq!(to_unsigned(0), 0);
    assert_eq!(to_unsigned(7), 7);
    assert_eq!(to_unsigned(i64::MAX), i64::MAX as u64);
    assert_eq!(to_unsigned(-1), u64::MAX);
    assert_eq!(to_unsigned(i64::MIN), 1u64 << 63);
    assert_eq!(to_signed(0), 0);
    assert_eq!(to_signed(7), 7);
    assert_eq!(to_signed(i64::MAX as u64), i64::MAX);
    assert_eq!(to_signed(u64::MAX), -1);
    assert_eq!(to_signed(1u64 << 63), i64::MIN);
    assert_eq!(
        posts_request(Some(5), None),
        GetPostsRequest { limit: Some(5), offset: None }
    );
    assert_eq!(
        posts_request(None, Some(u64::MAX)),
        GetPostsRequest { limit: None, offset: Some(-1) }
    );
}

#[test]
fn commands_that_act_for_an_account_need_the_token() {
    let create = Command::Create { title: "t".to_string(), content: "c".to_string() };
    let update = Command::Update { id: 1, title: "t".to_string(), content: "c".to_string() };
    let register = Command::Register {
        username: "u".to_string(),
        email: "e".to_string(),
        password: "p".to_string(),
    };
    let login = Command::Login { username: "u".to_string(), password: "p".to_string() };
    assert!(create.requires_token());
    assert!(update.requires_token());
    assert!(Command::Delete { id: 1 }.requires_token());
    assert!(!Command::Get { id: 1 }.requires_token());
    assert!(!Command::List { limit: None, offset: None }.requires_token());
    assert!(!Command::Logout.requires_token());
    assert!(!register.requires_token());
    assert!(!login.requires_token());
    assert!(register.yields_token());
    assert!(login.yields_token());
    assert!(!create.yields_token());
    assert!(!Command::Logout.yields_token());
}

#[test]
fn refused_token_or_credentials_discard_the_saved_token() {
    assert!(is_token_invalid(&CliError::ClientError(BlogClientError::InvalidToken)));
    assert!(is_token_invalid(&CliError::ClientError(BlogClientError::InvalidCredentials)));
    assert!(!is_token_invalid(&CliError::ClientError(BlogClientError::Forbidden)));
    assert!(!is_token_invalid(&CliError::ClientError(BlogClientError::TokenNotSet)));
    assert!(!is_token_invalid(&CliError::TokenNotFound));
    assert!(!is_token_invalid(&CliError::IoError("disk".to_string())));
}

#[test]
fn browser_session_knows_its_user() {
    let mut app = BlogApp::new("http://h/api".to_string(), None);
    assert!(!app.is_authenticated());
    assert!(!app.post_belongs_to_current_user(1));
    assert_eq!(app.token_opt(), None);
    app.set_auth_data(AuthData { token: "tok".to_string(), user_id: 1 });
    assert!(app.is_authenticated());
    assert!(app.post_belongs_to_current_user(1));
    assert!(!app.post_belongs_to_current_user(2));
    assert_eq!(app.token_opt(), Some("tok"));
    app.logout();
    assert!(!app.is_authenticated());
    assert!(!app.post_belongs_to_current_user(1));
    let kept = BlogApp::new(
        "http://h/api".to_string(),
        Some(AuthData { token: "old".to_string(), user_id: 9 }),
    );
    assert!(kept.post_belongs_to_current_user(9));
    assert_eq!(kept.token_opt(), Some("old"));
}

#[test]
fn browser_reads_a_reply_by_its_status() {
    assert_eq!(classify_reply(200), ReplyKind::Json);
    assert_eq!(classify_reply(201), ReplyKind::Json);
    assert_eq!(classify_reply(204), ReplyKind::Empty);
    assert_eq!(classify_reply(299), ReplyKind::Json);
    assert_eq!(classify_reply(199), ReplyKind::Failed);
    assert_eq!(classify_reply(300), ReplyKind::Failed);
    assert_eq!(classify_reply(401), ReplyKind::Failed);
    assert_eq!(classify_reply(500), ReplyKind::Failed);
}

#[test]
fn interface_table_is_complete() {
    let table: Vec<(Method, &str, &str)> = [
        Operation::Register,
        Operation::Login,
        Operation::CreatePost,
        Operation::GetPost,
        Operation::UpdatePost,
        Operation::DeletePost,
        Operation::GetPosts,
    ]
    .iter()
    .map(|op| (op.method(), op.path(), op.rpc_name()))
    .collect();
    assert_eq!(
        table,
        vec![
            (Method::Post, "/auth/register", "Register"),
            (Method::Post, "/auth/login", "Login"),
            (Method::Post, "/posts", "CreatePost"),
            (Method::Get, "/posts/{id}", "GetPost"),
            (Method::Put, "/posts/{id}", "UpdatePost"),
            (Method::Delete, "/posts/{id}", "DeletePost"),
            (Method::Get, "/posts", "GetPosts"),
        ]
    );
}
