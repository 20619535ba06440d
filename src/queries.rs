//! The remote operations the client issues: each as a path under the server
//! address and its query parameters.

use vstd::prelude::*;

verus! {

/// How many items each home section asks for.
pub const HOME_SECTION_LIMIT: &'static str = "12";

/// The item fields every listing asks the server to include.
pub const ITEM_FIELDS: &'static str = "Path,Overview,CommunityRating,CriticRating,RunTimeTicks";

/// A request: its address and its query parameters, in order.
pub struct Query {
    pub url: String,
    pub params: Vec<(String, String)>,
}

/// The texts of a list of parameters.
pub open spec fn param_texts(v: Seq<(String, String)>) -> Seq<(Seq<char>, Seq<char>)> {
    v.map_values(|p: (String, String)| (p.0@, p.1@))
}

fn param(name: &str, value: &str) -> (r: (String, String))
    ensures
        r.0@ == name@,
        r.1@ == value@,
{
    (String::from_str(name), String::from_str(value))
}

fn push_param(params: &mut Vec<(String, String)>, name: &str, value: &str)
    ensures
        param_texts(final(params)@) == param_texts(old(params)@).push((name@, value@)),
{
    params.push(param(name, value));
    assert(param_texts(params@) =~= param_texts(old(params)@).push((name@, value@)));
}

fn user_url(server: &str, user_id: &str, tail: &str) -> (r: String)
    ensures
        r@ == server@ + "/Users/"@ + user_id@ + tail@,
{
    let mut s = String::from_str(server);
    s.append("/Users/");
    s.append(user_id);
    s.append(tail);
    s
}

/// Every movie, series and episode, sorted by name.
pub open spec fn catalog_query_text(server: Seq<char>, user_id: Seq<char>) -> (Seq<char>, Seq<(Seq<char>, Seq<char>)>) {
    (
        server + "/Users/"@ + user_id + "/Items"@,
        seq![
            ("Recursive"@, "true"@),
            ("Fields"@, ITEM_FIELDS@),
            ("IncludeItemTypes"@, "Movie,Series,Episode"@),
            ("SortBy"@, "SortName"@),
            ("SortOrder"@, "Ascending"@),
        ],
    )
}

/// Items whose playback was started and not finished.
pub open spec fn resume_query_text(server: Seq<char>, user_id: Seq<char>) -> (Seq<char>, Seq<(Seq<char>, Seq<char>)>) {
    (
        server + "/Users/"@ + user_id + "/Items/Resume"@,
        seq![("Limit"@, HOME_SECTION_LIMIT@), ("Fields"@, ITEM_FIELDS@)],
    )
}

/// The episodes the server proposes to continue series with.
pub open spec fn next_up_query_text(server: Seq<char>, user_id: Seq<char>) -> (Seq<char>, Seq<(Seq<char>, Seq<char>)>) {
    (
        server + "/Shows/NextUp"@,
        seq![("UserId"@, user_id), ("Limit"@, HOME_SECTION_LIMIT@), ("Fields"@, ITEM_FIELDS@)],
    )
}

/// The movies and series added last.
pub open spec fn latest_query_text(server: Seq<char>, user_id: Seq<char>) -> (Seq<char>, Seq<(Seq<char>, Seq<char>)>) {
    (
        server + "/Users/"@ + user_id + "/Items"@,
        seq![
            ("Limit"@, HOME_SECTION_LIMIT@),
            ("Fields"@, ITEM_FIELDS@),
            ("IncludeItemTypes"@, "Movie,Series"@),
            ("SortBy"@, "DateCreated,SortName"@),
            ("SortOrder"@, "Descending"@),
            ("Recursive"@, "true"@),
        ],
    )
}

impl Query {
    pub open spec fn text(&self) -> (Seq<char>, Seq<(Seq<char>, Seq<char>)>) {
        (self.url@, param_texts(self.params@))
    }

    /// The full catalog listing.
    pub fn catalog(server: &str, user_id: &str) -> (r: Query)
        ensures
            r.text() == catalog_query_text(server@, user_id@),
    {
        let url = user_url(server, user_id, "/Items");
        let mut params: Vec<(String, String)> = Vec::new();
        push_param(&mut params, "Recursive", "true");
        push_param(&mut params, "Fields", ITEM_FIELDS);
        push_param(&mut params, "IncludeItemTypes", "Movie,Series,Episode");
        push_param(&mut params, "SortBy", "SortName");
        push_param(&mut params, "SortOrder", "Ascending");
        let r = Query { url, params };
        assert(r.text().0 =~= catalog_query_text(server@, user_id@).0);
        assert(r.text().1 =~= catalog_query_text(server@, user_id@).1);
        r
    }

    /// The "continue watching" home section.
    pub fn resume(server: &str, user_id: &str) -> (r: Query)
        ensures
            r.text() == resume_query_text(server@, user_id@),
    {
        let url = user_url(server, user_id, "/Items/Resume");
        let mut params: Vec<(String, String)> = Vec::new();
        push_param(&mut params, "Limit", HOME_SECTION_LIMIT);
        push_param(&mut params, "Fields", ITEM_FIELDS);
        let r = Query { url, params };
        assert(r.text().0 =~= resume_query_text(server@, user_id@).0);
        assert(r.text().1 =~= resume_query_text(server@, user_id@).1);
        r
    }

    /// The "next up" home section.
    pub fn next_up(server: &str, user_id: &str) -> (r: Query)
        ensures
            r.text() == next_up_query_text(server@, user_id@),
    {
        let mut url = String::from_str(server);
        url.append("/Shows/NextUp");
        let mut params: Vec<(String, String)> = Vec::new();
        push_param(&mut params, "UserId", user_id);
        push_param(&mut params, "Limit", HOME_SECTION_LIMIT);
        push_param(&mut params, "Fields", ITEM_FIELDS);
        let r = Query { url, params };
        assert(r.text().0 =~= next_up_query_text(server@, user_id@).0);
        assert(r.text().1 =~= next_up_query_text(server@, user_id@).1);
        r
    }

    /// The "latest added" home section.
    pub fn latest_added(server: &str, user_id: &str) -> (r: Query)
        ensures
            r.text() == latest_query_text(server@, user_id@),
    {
        let url = user_url(server, user_id, "/Items");
        let mut params: Vec<(String, String)> = Vec::new();
        push_param(&mut params, "Limit", HOME_SECTION_LIMIT);
        push_param(&mut params, "Fields", ITEM_FIELDS);
        push_param(&mut params, "IncludeItemTypes", "Movie,Series");
        push_param(&mut params, "SortBy", "DateCreated,SortName");
        push_param(&mut params, "SortOrder", "Descending");
        push_param(&mut params, "Recursive", "true");
        let r = Query { url, params };
        assert(r.text().0 =~= latest_query_text(server@, user_id@).0);
        assert(r.text().1 =~= latest_query_text(server@, user_id@).1);
        r
    }
}

} // verus!
