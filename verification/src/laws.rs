//! What holds of the session and of the sign-in flow as a whole, over the
//! functions of `session` and `auth`.

use vstd::prelude::*;
use crate::auth::{
    approval_error_message, error_page, home_response, login_response, redirect_url,
    user_placeholder, verified_session, verify_response,
};
use crate::challenge::{base62_decoding, base62_encoding, is_fresh_challenge, NONCE_LEN};
use crate::response::{html_page, redirect_to, Status};
use crate::session::{
    lemma_keys_differ, pending_of, user_of, with_authenticated, with_pending, PendingLogin,
    StoredValue,
};
use crate::template::{lemma_replacement_occurs, occurs_in, replace_all};

verus! {

/// A fresh challenge keeps every bit of its draw: it decodes to `NONCE_LEN`
/// bytes, and these encode to the challenge again.
pub proof fn fresh_challenge_decodes_to_its_nonce(challenge: Seq<char>)
    requires
        is_fresh_challenge(challenge),
    ensures
        base62_decoding(challenge).is_some(),
        base62_decoding(challenge).unwrap().len() == NONCE_LEN,
        base62_encoding(base62_decoding(challenge).unwrap()) == challenge,
{
}

/// Two fresh challenges are the same only where their draws are the same:
/// different draws never give one challenge.
pub proof fn fresh_challenges_differ_as_their_nonces(first: Seq<char>, second: Seq<char>)
    requires
        is_fresh_challenge(first),
        is_fresh_challenge(second),
    ensures
        (first == second) <==> (base62_decoding(first).unwrap() == base62_decoding(
            second,
        ).unwrap()),
{
    fresh_challenge_decodes_to_its_nonce(first);
    fresh_challenge_decodes_to_its_nonce(second);
}

/// A value that was written under a name is the value that is read under
/// it, and every other name reads as before.
pub proof fn written_value_is_read_back(
    s: Map<Seq<char>, StoredValue>,
    key: Seq<char>,
    value: StoredValue,
    other: Seq<char>,
)
    ensures
        s.insert(key, value).contains_key(key),
        s.insert(key, value)[key] == value,
        other != key ==> s.insert(key, value).contains_key(other) == s.contains_key(other),
        other != key && s.contains_key(other) ==> s.insert(key, value)[other] == s[other],
{
}

/// The empty session, which is what a cookie that cannot be opened gives,
/// holds nothing under any name: no pending sign-in and no signed-in user.
pub proof fn empty_session_holds_nothing(key: Seq<char>)
    ensures
        !Map::<Seq<char>, StoredValue>::empty().contains_key(key),
        pending_of(Map::<Seq<char>, StoredValue>::empty()).is_none(),
        user_of(Map::<Seq<char>, StoredValue>::empty()).is_none(),
{
}

/// The pending sign-in and the signed-in user are read back as written, and
/// writing one leaves the other as it was.
pub proof fn sign_in_entries_are_read_back(
    s: Map<Seq<char>, StoredValue>,
    user: Seq<char>,
    challenge: Seq<char>,
)
    ensures
        pending_of(with_pending(s, user, challenge)) == Some(PendingLogin { user, challenge }),
        user_of(with_pending(s, user, challenge)) == user_of(s),
        user_of(with_authenticated(s, user)) == Some(user),
        pending_of(with_authenticated(s, user)) == pending_of(s),
{
    lemma_keys_differ();
}

/// Following the approval link with the challenge that the login wrote signs
/// the login's user in, answers with a redirect to the home page, and the
/// home page then shows the template filled with that user.
pub proof fn login_then_verify_signs_in(
    s: Map<Seq<char>, StoredValue>,
    user: Seq<char>,
    challenge: Seq<char>,
    template: Seq<char>,
)
    ensures
        verify_response(with_pending(s, user, challenge), challenge) == redirect_to("/"@),
        user_of(verified_session(with_pending(s, user, challenge), challenge)) == Some(user),
        home_response(verified_session(with_pending(s, user, challenge), challenge), template)
            == html_page(Status::Success, replace_all(template, user_placeholder(), user)),
{
    lemma_keys_differ();
}

/// Following the link with another challenge than the pending one is
/// answered with 401 and changes nothing; so whoever was not signed in
/// before is not signed in after, and is still sent to the login form.
pub proof fn wrong_challenge_changes_nothing(
    s: Map<Seq<char>, StoredValue>,
    supplied: Seq<char>,
    template: Seq<char>,
)
    requires
        pending_of(s).is_some(),
        pending_of(s).unwrap().challenge != supplied,
    ensures
        verify_response(s, supplied) == html_page(Status::Unauthorized, "Invalid challenge"@),
        verified_session(s, supplied) == s,
        user_of(s).is_none() ==> home_response(verified_session(s, supplied), template)
            == redirect_to("/login"@),
{
}

/// Following the link where no sign-in is pending is answered with 400 and
/// changes nothing, whatever challenge comes; this holds of the empty
/// session.
pub proof fn no_pending_is_rejected(s: Map<Seq<char>, StoredValue>, supplied: Seq<char>)
    requires
        pending_of(s).is_none(),
    ensures
        verify_response(s, supplied) == html_page(Status::BadRequest, "Invalid session"@),
        verified_session(s, supplied) == s,
        verify_response(Map::<Seq<char>, StoredValue>::empty(), supplied) == html_page(
            Status::BadRequest,
            "Invalid session"@,
        ),
        verified_session(Map::<Seq<char>, StoredValue>::empty(), supplied) == Map::<
            Seq<char>,
            StoredValue,
        >::empty(),
{
}

/// Verification signs a user in only on a match: where the signed-in user
/// after it is not the one before it, a sign-in was pending, the supplied
/// challenge was its challenge, and the signed-in user is its user.
pub proof fn sign_in_needs_matching_challenge(s: Map<Seq<char>, StoredValue>, supplied: Seq<char>)
    requires
        user_of(verified_session(s, supplied)) != user_of(s),
    ensures
        pending_of(s).is_some(),
        pending_of(s).unwrap().challenge == supplied,
        user_of(verified_session(s, supplied)) == Some(pending_of(s).unwrap().user),
{
}

/// Verification never touches the pending sign-in, so following the same
/// link again gives the same answer and the same session.
pub proof fn verification_can_be_repeated(s: Map<Seq<char>, StoredValue>, supplied: Seq<char>)
    ensures
        pending_of(verified_session(s, supplied)) == pending_of(s),
        verify_response(verified_session(s, supplied), supplied) == verify_response(s, supplied),
        verified_session(verified_session(s, supplied), supplied) == verified_session(s, supplied),
{
    lemma_keys_differ();
    assert(verified_session(verified_session(s, supplied), supplied) =~= verified_session(
        s,
        supplied,
    ));
}

/// A second login replaces the first: the second challenge signs the second
/// user in, and the first challenge, where it is another one, signs nobody
/// in.
pub proof fn latest_login_wins(
    s: Map<Seq<char>, StoredValue>,
    first_user: Seq<char>,
    first_challenge: Seq<char>,
    second_user: Seq<char>,
    second_challenge: Seq<char>,
)
    ensures
        with_pending(with_pending(s, first_user, first_challenge), second_user, second_challenge)
            == with_pending(s, second_user, second_challenge),
        user_of(
            verified_session(
                with_pending(
                    with_pending(s, first_user, first_challenge),
                    second_user,
                    second_challenge,
                ),
                second_challenge,
            ),
        ) == Some(second_user),
        first_challenge != second_challenge ==> user_of(
            verified_session(
                with_pending(
                    with_pending(s, first_user, first_challenge),
                    second_user,
                    second_challenge,
                ),
                first_challenge,
            ),
        ) == user_of(s),
{
    lemma_keys_differ();
    assert(with_pending(
        with_pending(s, first_user, first_challenge),
        second_user,
        second_challenge,
    ) =~= with_pending(s, second_user, second_challenge));
}

/// A login whose prompt the approval service refused signs nobody in. The
/// answer is the error page, made of the service's words and of nothing out
/// of the session; the signed-in user is who it was before the login; and
/// following a link with any other challenge than the one that was written
/// is answered with 401 and changes nothing.
pub proof fn refused_login_signs_nobody_in(
    s: Map<Seq<char>, StoredValue>,
    user: Seq<char>,
    challenge: Seq<char>,
    detail: Seq<char>,
    page: Seq<char>,
    supplied: Seq<char>,
)
    requires
        supplied != challenge,
    ensures
        login_response(Err(detail), page) == error_page(approval_error_message(detail)),
        user_of(with_pending(s, user, challenge)) == user_of(s),
        verify_response(with_pending(s, user, challenge), supplied) == html_page(
            Status::Unauthorized,
            "Invalid challenge"@,
        ),
        verified_session(with_pending(s, user, challenge), supplied) == with_pending(
            s,
            user,
            challenge,
        ),
{
    lemma_keys_differ();
}

/// The approval link ends with `?c=` and the challenge, and starts with the
/// origin.
pub proof fn redirect_url_carries_challenge(web_url: Seq<char>, challenge: Seq<char>)
    ensures
        redirect_url(web_url, challenge).len() == web_url.len() + 16 + challenge.len(),
        redirect_url(web_url, challenge).subrange(0, web_url.len() as int) == web_url,
        redirect_url(web_url, challenge).subrange(
            (web_url.len() + 13) as int,
            (web_url.len() + 16 + challenge.len()) as int,
        ) == "?c="@ + challenge,
{
    reveal_strlit("/verify_login?c=");
    reveal_strlit("?c=");
    let url = redirect_url(web_url, challenge);
    assert(url.subrange(0, web_url.len() as int) =~= web_url);
    assert(url.subrange((web_url.len() + 13) as int, (web_url.len() + 16 + challenge.len()) as int)
        =~= "?c="@ + challenge);
}

/// The home page of a signed-in user shows the user wherever the template
/// holds the placeholder: if the placeholder stands in the template, the
/// user stands in the body.
pub proof fn home_shows_signed_in_user(s: Map<Seq<char>, StoredValue>, template: Seq<char>)
    requires
        user_of(s).is_some(),
        occurs_in(template, user_placeholder()),
    ensures
        home_response(s, template).status == Status::Success,
        occurs_in(home_response(s, template).body, user_of(s).unwrap()),
{
    reveal_strlit("USER_ID");
    lemma_replacement_occurs(template, user_placeholder(), user_of(s).unwrap());
}

/// Whoever is not signed in is sent to the login form, whatever else the
/// session holds.
pub proof fn home_without_user_redirects(s: Map<Seq<char>, StoredValue>, template: Seq<char>)
    requires
        user_of(s).is_none(),
    ensures
        home_response(s, template) == redirect_to("/login"@),
{
}

} // verus!
