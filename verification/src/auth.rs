//! The sign-in flow: what each request does to the session, and which
//! response it gets.
//!
//! A session is signed out, waits for an approval, or is signed in. A login
//! submission writes a pending sign-in with a fresh challenge and yields the
//! prompt to send; following the approval link with the same challenge signs
//! the pending user in. A pending sign-in may stand beside a signed-in user:
//! the signed-in user alone decides what the home page shows.

use vstd::prelude::*;
use vstd::string::StringExecFns;
use crate::challenge::{challenges_match, is_fresh_challenge, is_url_safe, random_challenge};
use crate::response::{html_page, redirect_to, text_view, Response, ResponseView, Status};
use crate::session::{
    pending_of, user_of, with_authenticated, with_pending, LoginChallenge, Session, StoredValue,
};
use crate::template::{fill, replace_all};

verus! {

/// The placeholder that the home page's template holds for the user.
pub open spec fn user_placeholder() -> Seq<char> {
    "USER_ID"@
}

/// The answer to a request for the home page: the template with the
/// signed-in user filled in, or a redirect to the login form where nobody is
/// signed in.
pub open spec fn home_response(s: Map<Seq<char>, StoredValue>, template: Seq<char>) -> ResponseView {
    match user_of(s) {
        Some(user) => html_page(Status::Success, replace_all(template, user_placeholder(), user)),
        None => redirect_to("/login"@),
    }
}

/// Answers a request for the home page.
pub fn home(session: &Session, template: &str) -> (r: Response)
    ensures
        r@ == home_response(session@, template@),
{
    match session.user() {
        Some(user) => Response::html(Status::Success, fill(template, "USER_ID", user.as_str())),
        None => Response::redirect("/login"),
    }
}

/// Answers a request for the login form: the page as it is.
pub fn login_page(page: &str) -> (r: Response)
    ensures
        r@ == html_page(Status::Success, page@),
{
    Response::html(Status::Success, String::from_str(page))
}

/// What the approval service is asked to show.
#[derive(Clone, Debug, PartialEq, Eq)]
pub struct PromptRequest {
    pub user: String,
    pub body: String,
    pub title: Option<String>,
    pub approve_text: Option<String>,
    pub approve_redirect_url: Option<String>,
}

/// A prompt, with its texts as sequences of characters.
pub struct PromptView {
    pub user: Seq<char>,
    pub body: Seq<char>,
    pub title: Option<Seq<char>>,
    pub approve_text: Option<Seq<char>>,
    pub approve_redirect_url: Option<Seq<char>>,
}

impl View for PromptRequest {
    type V = PromptView;

    open spec fn view(&self) -> PromptView {
        PromptView {
            user: self.user@,
            body: self.body@,
            title: text_view(self.title),
            approve_text: text_view(self.approve_text),
            approve_redirect_url: text_view(self.approve_redirect_url),
        }
    }
}

/// The message of the sign-in prompt.
pub open spec fn prompt_body() -> Seq<char> {
    "Click the link below to sign in to your account.\n        This link will expire in 24 hours."@
}

/// The link that the approval service sends the user to on approval: the
/// verification endpoint under `web_url`, with the challenge as its `c`.
pub open spec fn redirect_url(web_url: Seq<char>, challenge: Seq<char>) -> Seq<char> {
    web_url + "/verify_login?c="@ + challenge
}

/// The prompt that asks `user` to approve the sign-in behind `challenge`.
pub open spec fn sign_in_prompt(user: Seq<char>, web_url: Seq<char>, challenge: Seq<char>) -> PromptView {
    PromptView {
        user,
        body: prompt_body(),
        title: Some("Magic sign-in link"@),
        approve_text: Some("Sign-in"@),
        approve_redirect_url: Some(redirect_url(web_url, challenge)),
    }
}

/// Opens a sign-in for `user` under the given challenge: writes the pending
/// sign-in over any earlier one, leaves the signed-in user alone, and builds
/// the prompt whose approve link brings the challenge back.
pub fn start_login(session: &mut Session, user: String, challenge: String, web_url: &str) -> (prompt: PromptRequest)
    ensures
        final(session)@ == with_pending(old(session)@, user@, challenge@),
        prompt@ == sign_in_prompt(user@, web_url@, challenge@),
{
    let link = String::from_str(web_url).concat("/verify_login?c=").concat(challenge.as_str());
    session.set_pending(LoginChallenge { user: user.clone(), challenge });
    PromptRequest {
        user,
        body: String::from_str(
            "Click the link below to sign in to your account.\n        This link will expire in 24 hours.",
        ),
        title: Some(String::from_str("Magic sign-in link")),
        approve_text: Some(String::from_str("Sign-in")),
        approve_redirect_url: Some(link),
    }
}

/// Handles a login submission up to the call of the approval service: draws
/// a fresh challenge and opens the sign-in under it. Whatever challenge was
/// drawn, the session and the prompt hold the same one, and it is a fresh
/// one that can stand in a URL as it is. Where no challenge could be drawn
/// there is no prompt, and the session stays as it was.
pub fn login_submit(session: &mut Session, user: String, web_url: &str) -> (prompt: Option<
    PromptRequest,
>)
    ensures
        prompt is None ==> final(session)@ == old(session)@,
        prompt is Some ==> pending_of(final(session)@).is_some(),
        prompt is Some ==> is_fresh_challenge(pending_of(final(session)@).unwrap().challenge),
        prompt is Some ==> is_url_safe(pending_of(final(session)@).unwrap().challenge),
        prompt is Some ==> pending_of(final(session)@).unwrap().challenge.len() > 0,
        prompt is Some ==> final(session)@ == with_pending(
            old(session)@,
            user@,
            pending_of(final(session)@).unwrap().challenge,
        ),
        prompt is Some ==> prompt.unwrap()@ == sign_in_prompt(
            user@,
            web_url@,
            pending_of(final(session)@).unwrap().challenge,
        ),
{
    match random_challenge() {
        Some(challenge) => Some(start_login(session, user, challenge, web_url)),
        None => None,
    }
}

/// A failure that is shown to the client as it is.
#[derive(Clone, Debug, PartialEq, Eq)]
pub struct ServerError {
    pub message: String,
}

/// The page that shows a failure with the given message.
pub open spec fn error_page(message: Seq<char>) -> ResponseView {
    html_page(Status::BadRequest, "ERROR! "@ + message)
}

/// The message of a failed call to the approval service.
pub open spec fn approval_error_message(detail: Seq<char>) -> Seq<char> {
    "approveapi error: "@ + detail
}

impl ServerError {
    /// The failure of a call to the approval service, with what the service
    /// or the transport said of it.
    pub fn approval(detail: &str) -> (e: ServerError)
        ensures
            e.message@ == approval_error_message(detail@),
    {
        ServerError { message: String::from_str("approveapi error: ").concat(detail) }
    }

    /// The response that shows this failure.
    pub fn error_response(&self) -> (r: Response)
        ensures
            r@ == error_page(self.message@),
    {
        Response::html(Status::BadRequest, String::from_str("ERROR! ").concat(self.message.as_str()))
    }
}

/// The answer to a login submission, once the approval service has answered:
/// the given page where it accepted the prompt, the failure's page where it
/// did not. The session is not touched either way.
pub open spec fn login_response(accepted: Result<(), Seq<char>>, page: Seq<char>) -> ResponseView {
    match accepted {
        Ok(_) => html_page(Status::Success, page),
        Err(detail) => error_page(approval_error_message(detail)),
    }
}

/// Answers a login submission from what the approval service said.
pub fn finish_login(accepted: Result<(), String>, page: &str) -> (r: Response)
    ensures
        r@ == login_response(
            match accepted {
                Ok(_) => Ok(()),
                Err(detail) => Err(detail@),
            },
            page@,
        ),
{
    match accepted {
        Ok(_) => Response::html(Status::Success, String::from_str(page)),
        Err(detail) => ServerError::approval(detail.as_str()).error_response(),
    }
}

/// The session after the approval link was followed with `supplied`: the
/// pending user is signed in where the pending challenge is the supplied
/// one; in every other case nothing changes.
pub open spec fn verified_session(s: Map<Seq<char>, StoredValue>, supplied: Seq<char>) -> Map<
    Seq<char>,
    StoredValue,
> {
    match pending_of(s) {
        Some(p) => if p.challenge == supplied {
            with_authenticated(s, p.user)
        } else {
            s
        },
        None => s,
    }
}

/// The answer to a followed approval link: a redirect to the home page on a
/// match, 401 on another challenge, 400 where no sign-in is pending.
pub open spec fn verify_response(s: Map<Seq<char>, StoredValue>, supplied: Seq<char>) -> ResponseView {
    match pending_of(s) {
        Some(p) => if p.challenge == supplied {
            redirect_to("/"@)
        } else {
            html_page(Status::Unauthorized, "Invalid challenge"@)
        },
        None => html_page(Status::BadRequest, "Invalid session"@),
    }
}

/// Handles a followed approval link that carries `supplied` as its
/// challenge.
pub fn verify_login(session: &mut Session, supplied: &str) -> (r: Response)
    ensures
        final(session)@ == verified_session(old(session)@, supplied@),
        r@ == verify_response(old(session)@, supplied@),
{
    let matched: Option<String> = match session.pending() {
        None => {
            return Response::html(Status::BadRequest, String::from_str("Invalid session"));
        },
        Some(pending) => {
            if challenges_match(pending.challenge.as_str(), supplied) {
                Some(pending.user.clone())
            } else {
                None
            }
        },
    };
    match matched {
        Some(user) => {
            session.set_authenticated_user(user);
            Response::redirect("/")
        },
        None => Response::html(Status::Unauthorized, String::from_str("Invalid challenge")),
    }
}

} // verus!
