use rsreddit::client::comment_outcome;
use rsreddit::client::Reddit;
use rsreddit::model::responses::CommentResponse;
use rsreddit::model::responses::ErrorResponse;
use rsreddit::model::sort_time::SortTime;
use rsreddit::model::token::OAuthToken;
use rsreddit::oauth2::RedditClientCredentials;

fn token_with_scope(scope: &str) -> OAuthToken {
    OAuthToken {
        access_token: "A1".to_string(),
        token_type: "bearer".to_string(),
        expires_in: 3600,
        scope: scope.to_string(),
        refresh_token: "R1".to_string(),
    }
}

fn client_with_scope(scope: &str) -> Reddit {
    Reddit::default()
        .client_credentials(&RedditClientCredentials::default().client_secret("s3cret"))
        .bearer_token(token_with_scope(scope))
        .build()
}

#[test]
fn listing_request_validates_the_limit_bounds() {
    let reddit = client_with_scope("read");
    let r = reddit.listing_request("top", None, None, "", "", 0, 0, true, true);
    assert_eq!(Err("Limit bounds are [1, 100]".to_string()), r);
    let r = reddit.listing_request("top", None, None, "", "", 0, 101, true, true);
    assert_eq!(Err("Limit bounds are [1, 100]".to_string()), r);
}

#[test]
fn listing_request_rejects_after_and_before_together() {
    let reddit = client_with_scope("read");
    let r = reddit.listing_request("top", None, None, "a", "b", 0, 10, true, true);
    assert_eq!(
        Err("Set `after` XOR `before`. Do not set both to a specific value.".to_string()),
        r
    );
}

#[test]
fn listing_request_needs_a_bearer_token_with_read_scope() {
    let no_token = Reddit::default().build();
    let r = no_token.listing_request("top", None, None, "", "", 0, 10, true, true);
    assert_eq!(
        Err("Bearer Token not set. Authorization necessary for this action".to_string()),
        r
    );

    let wrong_scope = client_with_scope("identity submit");
    let r = wrong_scope.listing_request("top", None, None, "", "", 0, 10, true, true);
    assert_eq!(
        Err("Insufficient scope rights. Need scope: `read`.".to_string()),
        r
    );
}

#[test]
fn listing_request_builds_the_url_and_header() {
    let reddit = client_with_scope("read");
    let (url, header) = reddit
        .listing_request(
            "top",
            Some("/r/rust"),
            Some(SortTime::week),
            "",
            "t3_abc",
            25,
            50,
            true,
            false,
        )
        .expect("a valid request");
    assert_eq!(
        "https://www.reddit.com/r/rust/top/.json?t=week&limit=50&before=t3_abc&after=&\
         count=25&show=true&sr_detail=false&raw_json=1&",
        url
    );
    assert_eq!("Authorization: Basic s3cret", header);
}

#[test]
fn comment_request_builds_the_payload_and_bearer_header() {
    let reddit = client_with_scope("read submit");
    let (url, payload, header) = reddit
        .comment_request("t3_abc", "nice post")
        .expect("a valid request");
    assert_eq!("https://oauth.reddit.com/api/comment", url);
    assert_eq!(
        "api_type=json&text=nice post&return_rtjson=true&thing_id=t3_abc&",
        payload
    );
    assert_eq!("Authorization: bearer A1", header);
}

#[test]
fn comment_request_needs_a_bearer_token_with_submit_scope() {
    let no_token = Reddit::default().build();
    let r = no_token.comment_request("t3_abc", "text");
    assert_eq!(
        Err("Bearer Token not set. Authorization necessary for commenting".to_string()),
        r
    );

    let wrong_scope = client_with_scope("read");
    let r = wrong_scope.comment_request("t3_abc", "text");
    assert_eq!(
        Err("Insufficient scope rights. Need scope: `submit`.".to_string()),
        r
    );
}

#[test]
fn comment_outcome_reports_the_first_error_pair() {
    let accepted = CommentResponse { json: None };
    assert!(comment_outcome(&accepted).is_ok());

    let rejected = CommentResponse {
        json: Some(ErrorResponse {
            errors: vec![vec![
                "RATELIMIT".to_string(),
                "you are doing that too much".to_string(),
            ]],
        }),
    };
    assert_eq!(
        Err("[RATELIMIT] - you are doing that too much".to_string()),
        comment_outcome(&rejected)
    );
}
