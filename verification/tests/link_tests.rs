use mod_updater::link::{bearer, resolved_link, DropboxResponse, Metadata, ResolveError};

fn reply(link: &str) -> DropboxResponse {
    DropboxResponse {
        metadata: Metadata {
            name: "v1.5.0.zip".to_string(),
            path_lower: "/updates/v1.5.0.zip".to_string(),
            path_display: "/updates/v1.5.0.zip".to_string(),
            id: "id:abc".to_string(),
            client_modified: "2024-01-01T00:00:00Z".to_string(),
            server_modified: "2024-01-01T00:00:01Z".to_string(),
            rev: "5e1".to_string(),
            size: 4096,
            is_downloadable: true,
            content_hash: "00ff".to_string(),
        },
        link: link.to_string(),
    }
}

#[test]
fn bearer_puts_the_word_before_the_token() {
    assert_eq!(bearer("abc123"), "Bearer abc123");
    assert_eq!(bearer(""), "Bearer ");
}

#[test]
fn an_accepted_request_gives_the_link() {
    let link = resolved_link(200, Some(reply("https://dl.test/x")), String::new());
    assert_eq!(link, Ok("https://dl.test/x".to_string()));
    let link = resolved_link(299, Some(reply("https://dl.test/y")), "ignored".to_string());
    assert_eq!(link, Ok("https://dl.test/y".to_string()));
}

#[test]
fn a_refused_request_gives_the_body_word_for_word() {
    let body = "{\"error_summary\": \"path/not_found/..\"}".to_string();
    assert_eq!(resolved_link(409, None, body.clone()), Err(ResolveError::Rejected(body.clone())));
    assert_eq!(
        resolved_link(199, Some(reply("https://dl.test/x")), body.clone()),
        Err(ResolveError::Rejected(body.clone()))
    );
    assert_eq!(
        resolved_link(300, Some(reply("https://dl.test/x")), body.clone()),
        Err(ResolveError::Rejected(body))
    );
}

#[test]
fn an_accepted_request_without_a_readable_reply() {
    assert_eq!(resolved_link(200, None, "<html>".to_string()), Err(ResolveError::Unreadable));
}
