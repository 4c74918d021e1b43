use archivanima::auth::{Admin, Authentication, Uploader, USERNAME_COOKIE_NAME};
use archivanima::error::{Error, ValidationErrors};
use archivanima::ledger::Upload;
use archivanima::post::{
    BanReason, NewPost, Post, PostAddRequest, PostEditRequest, PostVisibility,
};
use archivanima::status::UploadStatus;
use archivanima::user::{User, UserFull, UserStatus};

fn user(name: &str, is_active: bool, is_admin: bool, is_uploader: bool) -> User {
    User { username: name.to_string(), is_active, is_admin, is_uploader, birth_date: Some(7000) }
}

fn post(author: &str) -> Post {
    Post {
        id: 9,
        creation_date: 0,
        title: "title".to_string(),
        description: "text".to_string(),
        author_username: author.to_string(),
        is_hidden: false,
        ban: None,
        uploads: vec![Upload {
            id: 1,
            extension: None,
            size: 1,
            creation_date: 0,
            file_status: UploadStatus::Published,
        }],
        min_age: None,
        is_age_restricted: false,
    }
}

fn no_errors() -> ValidationErrors {
    ValidationErrors {
        size_is_zero: false,
        size_too_large: false,
        extension_too_long: false,
        extension_invalid_chars: false,
        title_is_blank: false,
        title_too_long: false,
        min_age_out_of_range: false,
    }
}

#[test]
fn standing_follows_the_flags() {
    assert_eq!(user("a", false, true, true).status(), UserStatus::Banned);
    assert_eq!(user("a", true, true, false).status(), UserStatus::Admin);
    assert_eq!(user("a", true, true, true).status(), UserStatus::Admin);
    assert_eq!(user("a", true, false, true).status(), UserStatus::Uploader);
    assert_eq!(user("a", true, false, false).status(), UserStatus::User);
}

#[test]
fn standing_of_a_user_by_conversion() {
    assert_eq!(UserStatus::from(user("a", false, true, true)), UserStatus::Banned);
    assert_eq!(UserStatus::from(user("a", true, true, false)), UserStatus::Admin);
    assert_eq!(UserStatus::from(user("a", true, false, true)), UserStatus::Uploader);
    assert_eq!(UserStatus::from(user("a", true, false, false)), UserStatus::User);
}

#[test]
fn flags_follow_the_standing() {
    assert_eq!(UserStatus::Banned.flags(), (false, false, false));
    assert_eq!(UserStatus::User.flags(), (true, false, false));
    assert_eq!(UserStatus::Uploader.flags(), (true, true, false));
    assert_eq!(UserStatus::Admin.flags(), (true, false, true));
    for status in [UserStatus::Banned, UserStatus::User, UserStatus::Uploader, UserStatus::Admin] {
        let (is_active, is_uploader, is_admin) = status.flags();
        assert_eq!(user("a", is_active, is_admin, is_uploader).status(), status);
    }
}

#[test]
fn standings_have_names_and_labels() {
    assert_eq!(UserStatus::Banned.get_option(), "banned");
    assert_eq!(UserStatus::User.get_option(), "user");
    assert_eq!(UserStatus::Uploader.get_option(), "uploader");
    assert_eq!(UserStatus::Admin.get_option(), "admin");
    assert_eq!(
        UserStatus::get_options(),
        vec![
            ("banned".to_string(), "забанен".to_string()),
            ("user".to_string(), "обычный".to_string()),
            ("uploader".to_string(), "загружающий".to_string()),
            ("admin".to_string(), "администратор".to_string()),
        ]
    );
}

#[test]
fn administrators_may_upload() {
    assert!(user("a", true, true, false).is_uploader());
    assert!(user("a", true, false, true).is_uploader());
    assert!(!user("a", true, false, false).is_uploader());
}

#[test]
fn full_user_drops_the_password_hash() {
    let full = UserFull {
        username: "admin1".to_string(),
        is_active: true,
        is_admin: false,
        is_uploader: true,
        password_hash: "$argon2id$".to_string(),
        birth_date: Some(7000),
    };
    assert_eq!(User::from(full), user("admin1", true, false, true));
}

#[test]
fn requests_are_identified_by_the_users_table() {
    assert_eq!(USERNAME_COOKIE_NAME, "username");
    assert_eq!(Authentication::identify(None), Authentication::Anonymous);
    assert_eq!(
        Authentication::identify(Some(user("a", true, false, false))),
        Authentication::Authenticated(user("a", true, false, false))
    );
    assert_eq!(
        Authentication::identify(Some(user("a", false, true, false))),
        Authentication::Banned(user("a", false, true, false))
    );
}

#[test]
fn authentication_answers_for_its_user() {
    let admin = Authentication::Authenticated(user("root", true, true, false));
    let banned = Authentication::Banned(user("troll", false, false, true));
    let nobody = Authentication::Anonymous;
    assert!(admin.is_authenticated() && !admin.is_anonymous());
    assert!(!banned.is_authenticated() && !banned.is_anonymous());
    assert!(!nobody.is_authenticated() && nobody.is_anonymous());
    assert!(admin.is_admin() && admin.is_uploader());
    assert!(!banned.is_admin() && banned.is_uploader());
    assert!(!nobody.is_admin() && !nobody.is_uploader());
    assert_eq!(admin.username(), Some("root".to_string()));
    assert_eq!(banned.username(), Some("troll".to_string()));
    assert_eq!(nobody.username(), None);
    assert_eq!(admin.birth_date(), Some(7000));
    assert_eq!(nobody.birth_date(), None);
    assert_eq!(admin.map(|user| user.username.len()), Some(4));
    assert_eq!(nobody.map(|user| user.username.len()), None);
}

#[test]
fn guards_let_the_right_users_through() {
    let admin = Authentication::Authenticated(user("root", true, true, false));
    let uploader = Authentication::Authenticated(user("up", true, false, true));
    let plain = Authentication::Authenticated(user("plain", true, false, false));
    let banned = Authentication::Banned(user("troll", false, true, true));
    assert_eq!(Admin::from_authentication(&admin), Ok(Admin {}));
    assert_eq!(Admin::from_authentication(&uploader), Err(Error::AccessDenied));
    assert_eq!(Admin::from_authentication(&banned), Err(Error::AccessDenied));
    assert_eq!(Admin::from_authentication(&Authentication::Anonymous), Err(Error::AccessDenied));
    assert_eq!(Uploader::from_authentication(&admin), Ok(Uploader {}));
    assert_eq!(Uploader::from_authentication(&uploader), Ok(Uploader {}));
    assert_eq!(Uploader::from_authentication(&plain), Err(Error::AccessDenied));
    assert_eq!(Uploader::from_authentication(&banned), Err(Error::AccessDenied));
}

#[test]
fn only_administrators_pass_as_users() {
    let admin = Authentication::Authenticated(user("root", true, true, false));
    let uploader = Authentication::Authenticated(user("up", true, false, true));
    let banned = Authentication::Banned(user("troll", false, true, true));
    assert_eq!(User::from_authentication(&admin), Ok(user("root", true, true, false)));
    assert_eq!(User::from_authentication(&uploader), Err(Error::AccessDenied));
    assert_eq!(User::from_authentication(&banned), Err(Error::AccessDenied));
    assert_eq!(User::from_authentication(&Authentication::Anonymous), Err(Error::AccessDenied));
}

#[test]
fn post_requests_are_validated() {
    let request =
        PostAddRequest { title: "title", description: "", is_hidden: false, min_age: Some(21) };
    assert_eq!(request.validate(), no_errors());
    assert_eq!(
        request.new_post(),
        NewPost { title: "title", description: "", is_hidden: false, min_age: Some(21) }
    );
    let request = PostAddRequest { title: "", description: "", is_hidden: false, min_age: None };
    assert_eq!(request.validate(), ValidationErrors { title_is_blank: true, ..no_errors() });
    let long = "ы".repeat(501);
    let request =
        PostAddRequest { title: &long, description: "", is_hidden: false, min_age: Some(22) };
    assert_eq!(
        request.validate(),
        ValidationErrors { title_too_long: true, min_age_out_of_range: true, ..no_errors() }
    );
    let fits = "ы".repeat(500);
    let request =
        PostAddRequest { title: &fits, description: "", is_hidden: false, min_age: Some(-1) };
    assert_eq!(request.validate(), ValidationErrors { min_age_out_of_range: true, ..no_errors() });
}

#[test]
fn edit_requests_may_leave_the_title_out() {
    let request =
        PostEditRequest { title: None, description: None, is_hidden: None, min_age: Some(0) };
    assert_eq!(request.validate(), no_errors());
    let request = PostEditRequest {
        title: Some(String::new()),
        description: None,
        is_hidden: None,
        min_age: None,
    };
    assert_eq!(request.validate(), ValidationErrors { title_is_blank: true, ..no_errors() });
}

#[test]
fn administrators_see_every_post() {
    let admin = Authentication::Authenticated(user("root", true, true, false));
    let mut hidden = post("author");
    hidden.is_hidden = true;
    hidden.ban = Some((None, Some("spam".to_string())));
    assert_eq!(hidden.check_visible(&admin), {
        let mut expected = post("author");
        expected.is_hidden = true;
        expected.ban = Some((None, Some("spam".to_string())));
        PostVisibility::Visible(expected)
    });
}

#[test]
fn banned_posts_show_the_reason_even_to_their_author() {
    let author = Authentication::Authenticated(user("author", true, false, true));
    let reason = BanReason { id: "spam".to_string(), description: Some("adverts".to_string()) };
    let mut banned = post("author");
    banned.ban = Some((Some(reason.clone()), Some("see rules".to_string())));
    assert_eq!(
        banned.check_visible(&author),
        PostVisibility::Banned(Some(reason), Some("see rules".to_string()))
    );
}

#[test]
fn hidden_posts_are_shown_to_their_author_alone() {
    let author = Authentication::Authenticated(user("author", true, false, true));
    let banned_author = Authentication::Banned(user("author", false, false, true));
    let reader = Authentication::Authenticated(user("reader", true, false, false));
    let make = || {
        let mut post = post("author");
        post.is_hidden = true;
        post.is_age_restricted = true;
        post
    };
    assert_eq!(make().check_visible(&author), PostVisibility::Visible(make()));
    assert_eq!(make().check_visible(&banned_author), PostVisibility::Visible(make()));
    assert_eq!(make().check_visible(&reader), PostVisibility::Hidden);
    assert_eq!(make().check_visible(&Authentication::Anonymous), PostVisibility::Hidden);
}

#[test]
fn age_restricted_posts_name_the_age() {
    let author = Authentication::Authenticated(user("author", true, false, true));
    let reader = Authentication::Authenticated(user("reader", true, false, false));
    let make = |min_age| {
        let mut post = post("author");
        post.is_age_restricted = true;
        post.min_age = min_age;
        post
    };
    assert_eq!(make(Some(18)).check_visible(&reader), PostVisibility::AgeRestricted(18));
    assert_eq!(make(None).check_visible(&reader), PostVisibility::AgeRestricted(0));
    assert_eq!(make(Some(18)).check_visible(&author), PostVisibility::Visible(make(Some(18))));
    assert_eq!(
        post("author").check_visible(&Authentication::Anonymous),
        PostVisibility::Visible(post("author"))
    );
}

#[test]
fn only_the_author_in_good_standing_may_edit() {
    let post = post("author");
    assert!(post.can_edit(&Authentication::Authenticated(user("author", true, false, true))));
    assert!(!post.can_edit(&Authentication::Banned(user("author", false, false, true))));
    assert!(!post.can_edit(&Authentication::Authenticated(user("root", true, true, true))));
    assert!(!post.can_edit(&Authentication::Anonymous));
    assert!(post.can_edit_by_user(&user("author", true, false, false)));
    assert!(!post.can_edit_by_user(&user("other", true, true, false)));
    assert!(post.is_written_by(&Authentication::Banned(user("author", false, false, true))));
    assert!(!post.is_written_by(&Authentication::Anonymous));
}

#[test]
fn only_administrators_ban_and_unban() {
    let admin = Authentication::Authenticated(user("root", true, true, false));
    let author = Authentication::Authenticated(user("author", true, false, true));
    let mut banned = post("author");
    banned.ban = Some((None, None));
    assert!(post("author").can_ban(&admin));
    assert!(!post("author").can_ban(&author));
    assert!(banned.can_unban(&admin));
    assert!(!banned.can_unban(&author));
    assert!(!post("author").can_unban(&admin));
}
