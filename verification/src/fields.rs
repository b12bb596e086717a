//! Canonical X API v2 field sets, shared by every command.

use vstd::prelude::*;

verus! {

/// Tweet object fields.
pub const TWEET_FIELDS: &'static str = "attachments,author_id,conversation_id,created_at,entities,in_reply_to_user_id,public_metrics,referenced_tweets,text";

/// User object fields.
pub const USER_FIELDS: &'static str = "created_at,description,location,name,profile_image_url,public_metrics,url,username,verified";

/// Media object fields for expanded media attachments.
pub const MEDIA_FIELDS: &'static str = "height,media_key,preview_image_url,type,url,width";

/// Expansions: nested objects returned alongside the primary data.
pub const EXPANSIONS: &'static str = "attachments.media_keys,author_id,referenced_tweets.id";

/// The tweet-centric query pairs.
pub open spec fn tweet_param_views() -> Seq<(Seq<char>, Seq<char>)> {
    seq![
        ("tweet.fields"@, TWEET_FIELDS@),
        ("user.fields"@, USER_FIELDS@),
        ("media.fields"@, MEDIA_FIELDS@),
        ("expansions"@, EXPANSIONS@),
    ]
}

/// Query parameter pairs for tweet-centric endpoints: tweet, user and media
/// fields plus expansions.
pub fn tweet_query_params() -> (r: Vec<(&'static str, &'static str)>)
    ensures
        r@.len() == 4,
        r@[0].0@ == "tweet.fields"@ && r@[0].1@ == TWEET_FIELDS@,
        r@[1].0@ == "user.fields"@ && r@[1].1@ == USER_FIELDS@,
        r@[2].0@ == "media.fields"@ && r@[2].1@ == MEDIA_FIELDS@,
        r@[3].0@ == "expansions"@ && r@[3].1@ == EXPANSIONS@,
        r@.map_values(|p: (&'static str, &'static str)| (p.0@, p.1@)) == tweet_param_views(),
{
    let mut v: Vec<(&'static str, &'static str)> = Vec::new();
    v.push(("tweet.fields", TWEET_FIELDS));
    v.push(("user.fields", USER_FIELDS));
    v.push(("media.fields", MEDIA_FIELDS));
    v.push(("expansions", EXPANSIONS));
    assert(v@.map_values(|p: (&'static str, &'static str)| (p.0@, p.1@)) =~= tweet_param_views());
    v
}

/// Query parameter pairs for user-centric endpoints: user fields only.
pub fn user_query_params() -> (r: Vec<(&'static str, &'static str)>)
    ensures
        r@.len() == 1,
        r@[0].0@ == "user.fields"@ && r@[0].1@ == USER_FIELDS@,
{
    let mut v: Vec<(&'static str, &'static str)> = Vec::new();
    v.push(("user.fields", USER_FIELDS));
    v
}

} // verus!
