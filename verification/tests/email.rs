use stblib::email::credentials::Credentials;
use stblib::email::message::{Content, ContentType};
use stblib::email::Email;
use stblib::file::PersistentFile;
use stblib::networking::{Fetched, UrlHandler, UrlRequest};

#[test]
fn new_email_is_empty() {
    let email = Email::new();
    assert_eq!(email.from, "");
    assert_eq!(email.to, "");
    assert_eq!(email.subject, "");
    assert_eq!(email.body_type, ContentType::PLAIN);
    assert_eq!(email.content, Content::Default);
    assert_eq!(email.body_text(), "");
    assert_eq!(Email::default(), Email::new());
    assert_eq!(ContentType::default(), ContentType::PLAIN);
    assert_eq!(Content::default(), Content::Default);
}

#[test]
fn email_builder_sets_one_field_each() {
    let email = Email::new()
        .from("a@example.org")
        .to("b@example.org")
        .subject("Hello")
        .body(ContentType::HTML, Content::Html("<b>hi</b>"));
    assert_eq!(email.from, "a@example.org");
    assert_eq!(email.to, "b@example.org");
    assert_eq!(email.subject, "Hello");
    assert_eq!(email.body_type, ContentType::HTML);
    assert_eq!(email.content, Content::Html("<b>hi</b>"));
    assert_eq!(email.body_text(), "<b>hi</b>");
    let plain = email.clone().body(ContentType::PLAIN, Content::Plain("hi")).subject("Again");
    assert_eq!(plain.body_text(), "hi");
    assert_eq!(plain.subject, "Again");
    assert_eq!(plain.from, "a@example.org");
    assert_eq!(plain.to, "b@example.org");
}

#[test]
fn credentials_keep_their_parts() {
    let credentials = Credentials::new("a@example.org", "secret");
    assert_eq!(credentials.email, "a@example.org");
    assert_eq!(credentials.password, "secret");
}

#[test]
fn persistent_file_keeps_its_path() {
    let file = PersistentFile::new("dir/example.txt");
    assert_eq!(file.path(), "dir/example.txt");
    assert_eq!(PersistentFile::new("").path(), "");
}

#[test]
fn request_outcome_follows_the_status() {
    let answered = |status: u16, text: &str| Fetched::Answered {
        status,
        status_text: text.to_string(),
        body: "body".to_string(),
    };
    assert_eq!(UrlRequest::outcome(answered(200, "200 OK")), Ok("body".to_string()));
    assert_eq!(UrlRequest::outcome(answered(299, "299")), Ok("body".to_string()));
    assert_eq!(
        UrlRequest::outcome(answered(300, "300 Multiple Choices")),
        Err("Non-OK Status Code: 300 Multiple Choices".to_string())
    );
    assert_eq!(
        UrlRequest::outcome(answered(199, "199")),
        Err("Non-OK Status Code: 199".to_string())
    );
    assert_eq!(
        UrlRequest::outcome(answered(404, "404 Not Found")),
        Err("Non-OK Status Code: 404 Not Found".to_string())
    );
    assert_eq!(
        UrlRequest::outcome(Fetched::Failed("no route".to_string())),
        Err("Error sending request: no route".to_string())
    );
    let handler = UrlHandler { url: "http://example.org".to_string() };
    assert_eq!(
        handler.outcome(Fetched::Failed("no route".to_string())),
        Err("Error while requesting url: no route".to_string())
    );
    assert_eq!(handler.outcome(answered(204, "204 No Content")), Ok("body".to_string()));
}
