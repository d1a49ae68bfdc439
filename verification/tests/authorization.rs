use pinterest::config::PinterestConfig;
use pinterest::scope::Scope;
use pinterest::token::TokenBuilder;

fn config<'a>(client_id: &'a str, authorize_url: &'a str, redirect_url: &'a str, scope: Scope) -> PinterestConfig<'a> {
    PinterestConfig {
        client_id,
        client_secret: "myclientsecret",
        authorize_url,
        token_url: "https://example.com/token",
        redirect_url,
        scope,
    }
}

#[test]
fn create_authentication_url() {
    let config = PinterestConfig {
        client_id: "myclientid",
        client_secret: "myclientsecret",
        authorize_url: "https://example.com/authorize",
        token_url: "https://example.com/token",
        redirect_url: "https://mysite.com:8000",
        scope: Scope { read_public: true, read_relationships: true, ..Scope::default() },
    };
    assert_eq!(TokenBuilder::new(config).authorize_url().as_str(), "https://example.com/authorize?client_id=myclientid&scope=read_public+read_relationships&response_type=code&redirect_uri=https%3A%2F%2Fmysite.com%3A8000");
}

#[test]
fn no_scope_gives_an_empty_scope_parameter() {
    let config = config(
        "myclientid",
        "https://example.com/authorize",
        "https://mysite.com:8000",
        Scope::default(),
    );
    assert_eq!(
        TokenBuilder::new(config).authorize_url(),
        "https://example.com/authorize?client_id=myclientid&scope=&response_type=code&redirect_uri=https%3A%2F%2Fmysite.com%3A8000"
    );
}

#[test]
fn all_scopes_are_requested_reads_first() {
    let all = Scope {
        read_public: true,
        write_public: true,
        read_relationships: true,
        write_relationships: true,
    };
    let config = config("id", "https://example.com/authorize", "https://mysite.com", all);
    assert_eq!(
        TokenBuilder::new(config).authorize_url(),
        "https://example.com/authorize?client_id=id&scope=read_public+read_relationships+write_public+write_relationships&response_type=code&redirect_uri=https%3A%2F%2Fmysite.com"
    );
}

#[test]
fn one_scope_stands_alone() {
    let write = Scope { write_relationships: true, ..Scope::default() };
    let config = config("id", "https://example.com/authorize", "https://mysite.com", write);
    assert_eq!(
        TokenBuilder::new(config).authorize_url(),
        "https://example.com/authorize?client_id=id&scope=write_relationships&response_type=code&redirect_uri=https%3A%2F%2Fmysite.com"
    );
}

#[test]
fn client_id_and_redirect_are_percent_encoded() {
    let config = config(
        "my id&more=\u{e9}",
        "https://example.com/authorize",
        "https://mysite.com/back?to=here#now",
        Scope::default(),
    );
    assert_eq!(
        TokenBuilder::new(config).authorize_url(),
        "https://example.com/authorize?client_id=my+id%26more%3D%C3%A9&scope=&response_type=code&redirect_uri=https%3A%2F%2Fmysite.com%2Fback%3Fto%3Dhere%23now"
    );
}

#[test]
fn the_endpoint_is_written_as_parsed() {
    let config = config("id", "HTTPS://Example.COM", "r", Scope::default());
    assert_eq!(
        TokenBuilder::new(config).authorize_url(),
        "https://example.com/?client_id=id&scope=&response_type=code&redirect_uri=r"
    );
}

#[test]
fn pairs_go_behind_the_query_and_before_the_fragment() {
    let config = config("id", "https://example.com/authorize?lang=en#top", "r", Scope::default());
    assert_eq!(
        TokenBuilder::new(config).authorize_url(),
        "https://example.com/authorize?lang=en&client_id=id&scope=&response_type=code&redirect_uri=r#top"
    );
}

#[test]
fn secret_and_token_endpoint_stay_out_of_the_url() {
    let one = PinterestConfig {
        client_id: "id",
        client_secret: "first secret",
        authorize_url: "https://example.com/authorize",
        token_url: "https://example.com/token",
        redirect_url: "r",
        scope: Scope::default(),
    };
    let other = PinterestConfig {
        client_id: "id",
        client_secret: "second secret",
        authorize_url: "https://example.com/authorize",
        token_url: "https://elsewhere.example/token",
        redirect_url: "r",
        scope: Scope::default(),
    };
    assert_eq!(TokenBuilder::new(one).authorize_url(), TokenBuilder::new(other).authorize_url());
}

#[test]
fn try_new_accepts_what_new_takes() {
    let scope = Scope { read_public: true, read_relationships: true, ..Scope::default() };
    let builder = TokenBuilder::try_new(config(
        "myclientid",
        "https://example.com/authorize",
        "https://mysite.com:8000",
        scope,
    ));
    match builder {
        Some(builder) => assert_eq!(
            builder.authorize_url(),
            "https://example.com/authorize?client_id=myclientid&scope=read_public+read_relationships&response_type=code&redirect_uri=https%3A%2F%2Fmysite.com%3A8000"
        ),
        None => panic!("a configuration with two URLs was turned down"),
    }
}

#[test]
fn try_new_turns_down_an_authorize_url_that_is_none() {
    let builder = TokenBuilder::try_new(config("id", "not a url", "r", Scope::default()));
    assert!(builder.is_none());
}

#[test]
fn try_new_turns_down_a_token_url_that_is_none() {
    let builder = TokenBuilder::try_new(PinterestConfig {
        client_id: "id",
        client_secret: "secret",
        authorize_url: "https://example.com/authorize",
        token_url: "example.com/token",
        redirect_url: "r",
        scope: Scope::default(),
    });
    assert!(builder.is_none());
}

#[test]
fn try_new_turns_down_empty_urls() {
    let builder = TokenBuilder::try_new(PinterestConfig {
        client_id: "",
        client_secret: "",
        authorize_url: "",
        token_url: "",
        redirect_url: "",
        scope: Scope::default(),
    });
    assert!(builder.is_none());
}
