//! The domain operations: thin builders over the request pipeline that fix
//! each REST endpoint's path template and parameter set. Each returns the
//! prepared request that the transport performs; the contract states the
//! exact URL text produced.

use vstd::prelude::*;

use crate::error::ApiError;
use crate::json::{json_bytes, lemma_member_views_index, to_json_bytes, view_of, Json, JsonV};
use crate::query::params_view;
use crate::request::{request_url_chars, Method, PreparedRequest};
use crate::session::EmbyClient;
use crate::json::empty_object;
use crate::text::{bool_string, dec_chars, join_chars, join_strings, strs_view, u64_to_dec};

verus! {

/// The kind of list a library page asks for.
#[derive(Clone, Copy, PartialEq, Eq, Structural, Debug)]
pub enum ListType {
    All,
    Resume,
    Genres,
    Liked,
    Tags,
    BoxSet,
}

/// What kind of playback report is being sent.
#[derive(Clone, Copy, PartialEq, Eq, Structural, Debug)]
pub enum BackType {
    Start,
    Stop,
    Back,
}

/// A playback position report: which item and session, and where playback
/// stands.
pub struct Back {
    pub id: String,
    pub playsessionid: String,
    pub mediasourceid: String,
    pub tick: u64,
    pub start_tick: u64,
}

/// The endpoint a list request goes to.
pub open spec fn list_path_chars(lt: ListType, uid: Seq<char>) -> Seq<char> {
    match lt {
        ListType::Resume => "Users/"@ + uid + "/Items/Resume"@,
        ListType::Genres => "Genres"@,
        _ => "Users/"@ + uid + "/Items"@,
    }
}

/// The item type a list request asks for: tag and collection pages fix it,
/// the others pass the caller's through.
pub open spec fn list_include_type(lt: ListType, it: Seq<char>) -> Seq<char> {
    match lt {
        ListType::Tags => "Tag"@,
        ListType::BoxSet => "BoxSet"@,
        _ => it,
    }
}

/// The parameters of a list request. Resume pages swap a series filter for
/// episodes; liked pages add the favorite filter; the empty pair is the
/// skipped no-op parameter.
pub open spec fn list_params(
    lt: ListType,
    id: Seq<char>,
    start: nat,
    itype: Seq<char>,
    sort_order: Seq<char>,
    sortby: Seq<char>,
    uid: Seq<char>,
) -> Seq<(Seq<char>, Seq<char>)> {
    match lt {
        ListType::Resume => seq![
            (
                "Fields"@,
                "Overview,BasicSyncInfo,CanDelete,PrimaryImageAspectRatio,ProductionYear"@,
            ),
            ("ParentId"@, id),
            ("EnableImageTypes"@, "Primary,Backdrop,Thumb,Banner"@),
            ("ImageTypeLimit"@, "1"@),
            (
                "IncludeItemTypes"@,
                if itype == "Series"@ {
                    "Episode"@
                } else {
                    itype
                },
            ),
            ("Limit"@, "30"@),
        ],
        ListType::Genres => seq![
            ("Fields"@, "BasicSyncInfo,CanDelete,PrimaryImageAspectRatio"@),
            ("IncludeItemTypes"@, itype),
            ("StartIndex"@, crate::text::dec_chars(start)),
            ("ImageTypeLimit"@, "1"@),
            ("EnableImageTypes"@, "Primary,Backdrop,Thumb,Banner"@),
            ("Limit"@, "50"@),
            ("userId"@, uid),
            ("Recursive"@, "true"@),
            ("ParentId"@, id),
        ],
        _ => seq![
            ("Limit"@, "50"@),
            (
                "Fields"@,
                "Overview,BasicSyncInfo,CanDelete,PrimaryImageAspectRatio,ProductionYear,Status,EndDate,CommunityRating"@,
            ),
            ("ParentId"@, id),
            ("ImageTypeLimit"@, "1"@),
            ("StartIndex"@, crate::text::dec_chars(start)),
            ("Recursive"@, "true"@),
            ("IncludeItemTypes"@, itype),
            ("SortBy"@, sortby),
            ("SortOrder"@, sort_order),
            ("EnableImageTypes"@, "Primary,Backdrop,Thumb,Banner"@),
            (
                if lt == ListType::Liked {
                    ("Filters"@, "IsFavorite"@)
                } else {
                    (""@, ""@)
                }
            ),
        ],
    }
}

/// The body of a playback position report.
pub open spec fn position_back_body(back: Back) -> JsonV {
    JsonV::Obj(
        seq![
            (vstd::utf8::encode_utf8("VolumeLevel"@), JsonV::Num(vstd::utf8::encode_utf8("100"@))),
            (vstd::utf8::encode_utf8("NowPlayingQueue"@), JsonV::Arr(Seq::empty())),
            (vstd::utf8::encode_utf8("IsMuted"@), JsonV::Bool(false)),
            (vstd::utf8::encode_utf8("IsPaused"@), JsonV::Bool(false)),
            (
                vstd::utf8::encode_utf8("MaxStreamingBitrate"@),
                JsonV::Num(vstd::utf8::encode_utf8("2147483647"@)),
            ),
            (vstd::utf8::encode_utf8("RepeatMode"@), JsonV::Str(vstd::utf8::encode_utf8("RepeatNone"@))),
            (
                vstd::utf8::encode_utf8("PlaybackStartTimeTicks"@),
                JsonV::Num(vstd::utf8::encode_utf8(crate::text::dec_chars(back.start_tick as nat))),
            ),
            (vstd::utf8::encode_utf8("SubtitleOffset"@), JsonV::Num(vstd::utf8::encode_utf8("0"@))),
            (vstd::utf8::encode_utf8("PlaybackRate"@), JsonV::Num(vstd::utf8::encode_utf8("1"@))),
            (
                vstd::utf8::encode_utf8("PositionTicks"@),
                JsonV::Num(vstd::utf8::encode_utf8(crate::text::dec_chars(back.tick as nat))),
            ),
            (
                vstd::utf8::encode_utf8("PlayMethod"@),
                JsonV::Str(vstd::utf8::encode_utf8("DirectStream"@)),
            ),
            (
                vstd::utf8::encode_utf8("PlaySessionId"@),
                JsonV::Str(vstd::utf8::encode_utf8(back.playsessionid@)),
            ),
            (
                vstd::utf8::encode_utf8("MediaSourceId"@),
                JsonV::Str(vstd::utf8::encode_utf8(back.mediasourceid@)),
            ),
            (vstd::utf8::encode_utf8("PlaylistIndex"@), JsonV::Num(vstd::utf8::encode_utf8("0"@))),
            (vstd::utf8::encode_utf8("PlaylistLength"@), JsonV::Num(vstd::utf8::encode_utf8("1"@))),
            (vstd::utf8::encode_utf8("CanSeek"@), JsonV::Bool(true)),
            (vstd::utf8::encode_utf8("ItemId"@), JsonV::Str(vstd::utf8::encode_utf8(back.id@))),
            (vstd::utf8::encode_utf8("Shuffle"@), JsonV::Bool(false)),
        ],
    )
}

/// A prepared GET for `path` with `params` under the client's current
/// session: the exact URL and the current header values, with no body.
pub open spec fn is_get_of(
    q: PreparedRequest,
    c: EmbyClient,
    path: Seq<char>,
    params: Seq<(Seq<char>, Seq<char>)>,
) -> bool {
    &&& q.method == Method::Get
    &&& q.url@ == request_url_chars(c.url->0.base_chars(), path, params)
    &&& q.headers.accept_encoding@ == "gzip"@
    &&& q.headers.authorization@ == c.auth_header@
    &&& q.headers.token@ == c.token_header@
    &&& q.content_type is None
    &&& q.if_none_match is None
    &&& q.body is None
}

/// A prepared POST for `path` with `params`, carrying `body` serialized as
/// JSON.
pub open spec fn is_post_of(
    q: PreparedRequest,
    c: EmbyClient,
    path: Seq<char>,
    params: Seq<(Seq<char>, Seq<char>)>,
    body: JsonV,
) -> bool {
    &&& q.method == Method::Post
    &&& q.url@ == request_url_chars(c.url->0.base_chars(), path, params)
    &&& q.headers.accept_encoding@ == "gzip"@
    &&& q.headers.authorization@ == c.auth_header@
    &&& q.headers.token@ == c.token_header@
    &&& q.content_type matches Some(ct) && ct@ == "application/json"@
    &&& q.if_none_match is None
    &&& q.body matches Some(b) && b@ == json_bytes(body)
}

/// A prepared conditional GET for a binary asset: like a plain GET, but
/// the `If-None-Match` value carries the known entity tag, or is empty
/// when none is known.
pub open spec fn is_picture_of(
    q: PreparedRequest,
    c: EmbyClient,
    path: Seq<char>,
    params: Seq<(Seq<char>, Seq<char>)>,
    etag: Option<String>,
) -> bool {
    &&& q.method == Method::Get
    &&& q.url@ == request_url_chars(c.url->0.base_chars(), path, params)
    &&& q.headers.accept_encoding@ == "gzip"@
    &&& q.headers.authorization@ == c.auth_header@
    &&& q.headers.token@ == c.token_header@
    &&& q.content_type is None
    &&& (match etag {
        Some(t) => q.if_none_match matches Some(m) && m@ == t@,
        None => q.if_none_match matches Some(m) && m@.len() == 0,
    })
    &&& q.body is None
}

/// One query pair from two text slices.
pub fn qp(k: &str, v: &str) -> (r: (String, String))
    ensures
        r.0@ == k@,
        r.1@ == v@,
{
    (String::from_str(k), String::from_str(v))
}

/// One query pair from a key slice and an owned value.
pub fn qpo(k: &str, v: String) -> (r: (String, String))
    ensures
        r.0@ == k@,
        r.1@ == v@,
{
    (String::from_str(k), v)
}

impl EmbyClient {
    /// The GET half of a structured request: the prepared call for `path`
    /// and `params`, to be performed by the transport and interpreted by
    /// `decode_response`.
    pub fn request(&self, path: &str, params: &Vec<(String, String)>) -> (r: Result<
        PreparedRequest,
        ApiError,
    >)
        ensures
            r is Ok <==> self.url is Some,
            r is Err ==> r->Err_0 matches ApiError::Config(_),
            r matches Ok(q) ==> is_get_of(q, *self, path@, params_view(params@)),
    {
        self.prepare_request(Method::Get, path, params)
    }

    /// The POST half of a structured request: `body` rides along as JSON.
    pub fn post(&self, path: &str, params: &Vec<(String, String)>, body: &Json) -> (r: Result<
        PreparedRequest,
        ApiError,
    >)
        ensures
            r is Ok <==> self.url is Some,
            r is Err ==> r->Err_0 matches ApiError::Config(_),
            r matches Ok(q) ==> is_post_of(q, *self, path@, params_view(params@), view_of(*body)),
    {
        let mut q = self.prepare_request(Method::Post, path, params)?;
        q.content_type = Some(String::from_str("application/json"));
        q.body = Some(to_json_bytes(body));
        Ok(q)
    }

    /// A POST carrying raw bytes with an explicit content type, bypassing
    /// structured serialization.
    pub fn post_raw(&self, path: &str, body: Vec<u8>, content_type: &str) -> (r: Result<
        PreparedRequest,
        ApiError,
    >)
        ensures
            r is Ok <==> self.url is Some,
            r is Err ==> r->Err_0 matches ApiError::Config(_),
            r matches Ok(q) ==> {
                &&& q.method == Method::Post
                &&& q.url@ == request_url_chars(self.url->0.base_chars(), path@, Seq::empty())
                &&& q.headers.accept_encoding@ == "gzip"@
                &&& q.headers.authorization@ == self.auth_header@
                &&& q.headers.token@ == self.token_header@
                &&& q.content_type matches Some(ct) && ct@ == content_type@
                &&& q.if_none_match is None
                &&& q.body matches Some(b) && b@ == body@
            },
    {
        let params: Vec<(String, String)> = Vec::new();
        assert(params_view(params@) =~= Seq::<(Seq<char>, Seq<char>)>::empty());
        let mut q = self.prepare_request_headers(Method::Post, path, &params, content_type)?;
        q.body = Some(body);
        Ok(q)
    }

    /// The login call: POST to `Users/authenticatebyname` with the name and
    /// password as the body.
    pub fn login(&self, username: &str, password: &str) -> (r: Result<PreparedRequest, ApiError>)
        ensures
            r is Ok <==> self.url is Some,
            r is Err ==> r->Err_0 matches ApiError::Config(_),
            r matches Ok(q) ==> is_post_of(
                q,
                *self,
                "Users/authenticatebyname"@,
                Seq::empty(),
                JsonV::Obj(
                    seq![
                        (vstd::utf8::encode_utf8("Username"@), JsonV::Str(vstd::utf8::encode_utf8(username@))),
                        (vstd::utf8::encode_utf8("Pw"@), JsonV::Str(vstd::utf8::encode_utf8(password@))),
                    ],
                ),
            ),
    {
        let mut members: Vec<(String, Json)> = Vec::new();
        members.push((String::from_str("Username"), Json::Str(username.to_owned())));
        members.push((String::from_str("Pw"), Json::Str(password.to_owned())));
        let body = Json::Obj(members);
        let params: Vec<(String, String)> = Vec::new();
        let r = self.post("Users/authenticatebyname", &params, &body);
        proof {
            assert(params_view(params@) =~= Seq::<(Seq<char>, Seq<char>)>::empty());
            lemma_member_views_index(body->Obj_0@);
            assert(view_of(body) matches JsonV::Obj(ms) && ms =~= seq![
                (
                    vstd::utf8::encode_utf8("Username"@),
                    JsonV::Str(vstd::utf8::encode_utf8(username@)),
                ),
                (vstd::utf8::encode_utf8("Pw"@), JsonV::Str(vstd::utf8::encode_utf8(password@))),
            ]);
        }
        r
    }

    /// The account check behind the administrator flag: GET
    /// `Users/{user_id}`.
    pub fn authenticate_admin(&self) -> (r: Result<PreparedRequest, ApiError>)
        ensures
            r is Ok <==> self.url is Some,
            r is Err ==> r->Err_0 matches ApiError::Config(_),
            r matches Ok(q) ==> is_get_of(q, *self, "Users/"@ + self.user_id@, Seq::empty()),
    {
        let mut path = String::from_str("Users/");
        path.append(self.user_id.as_str());
        let params: Vec<(String, String)> = Vec::new();
        assert(params_view(params@) =~= Seq::<(Seq<char>, Seq<char>)>::empty());
        self.request(path.as_str(), &params)
    }

    /// The search call: GET `Users/{user_id}/Items` with the search term,
    /// the type filter (joined with commas), the start index and the fixed
    /// presentation parameters.
    pub fn search(&self, query: &str, filter: &Vec<String>, start_index: &str) -> (r: Result<
        PreparedRequest,
        ApiError,
    >)
        ensures
            r is Ok <==> self.url is Some,
            r is Err ==> r->Err_0 matches ApiError::Config(_),
            r matches Ok(q) ==> is_get_of(
                q,
                *self,
                "Users/"@ + self.user_id@ + "/Items"@,
                seq![
                    (
                        "Fields"@,
                        "BasicSyncInfo,CanDelete,PrimaryImageAspectRatio,ProductionYear,Status,EndDate,CommunityRating"@,
                    ),
                    ("IncludeItemTypes"@, join_chars(strs_view(filter@), ","@)),
                    ("IncludeSearchTypes"@, join_chars(strs_view(filter@), ","@)),
                    ("StartIndex"@, start_index@),
                    ("SortBy"@, "SortName"@),
                    ("SortOrder"@, "Ascending"@),
                    ("EnableImageTypes"@, "Primary,Backdrop,Thumb,Banner"@),
                    ("ImageTypeLimit"@, "1"@),
                    ("Recursive"@, "true"@),
                    ("SearchTerm"@, query@),
                    ("GroupProgramsBySeries"@, "true"@),
                    ("Limit"@, "50"@),
                ],
            ),
    {
        let filter_str = join_strings(filter, ",");
        let mut path = String::from_str("Users/");
        path.append(self.user_id.as_str());
        path.append("/Items");
        let mut params: Vec<(String, String)> = Vec::new();
        params.push(
            qp(
                "Fields",
                "BasicSyncInfo,CanDelete,PrimaryImageAspectRatio,ProductionYear,Status,EndDate,CommunityRating",
            ),
        );
        params.push(qpo("IncludeItemTypes", filter_str.clone()));
        params.push(qpo("IncludeSearchTypes", filter_str));
        params.push(qp("StartIndex", start_index));
        params.push(qp("SortBy", "SortName"));
        params.push(qp("SortOrder", "Ascending"));
        params.push(qp("EnableImageTypes", "Primary,Backdrop,Thumb,Banner"));
        params.push(qp("ImageTypeLimit", "1"));
        params.push(qp("Recursive", "true"));
        params.push(qp("SearchTerm", query));
        params.push(qp("GroupProgramsBySeries", "true"));
        params.push(qp("Limit", "50"));
        let r = self.request(path.as_str(), &params);
        assert(params_view(params@) =~= seq![
            (
                "Fields"@,
                "BasicSyncInfo,CanDelete,PrimaryImageAspectRatio,ProductionYear,Status,EndDate,CommunityRating"@,
            ),
            ("IncludeItemTypes"@, join_chars(strs_view(filter@), ","@)),
            ("IncludeSearchTypes"@, join_chars(strs_view(filter@), ","@)),
            ("StartIndex"@, start_index@),
            ("SortBy"@, "SortName"@),
            ("SortOrder"@, "Ascending"@),
            ("EnableImageTypes"@, "Primary,Backdrop,Thumb,Banner"@),
            ("ImageTypeLimit"@, "1"@),
            ("Recursive"@, "true"@),
            ("SearchTerm"@, query@),
            ("GroupProgramsBySeries"@, "true"@),
            ("Limit"@, "50"@),
        ]);
        r
    }

    /// The episodes of one season of a show.
    pub fn get_episodes(&self, id: &str, season_id: &str) -> (r: Result<PreparedRequest, ApiError>)
        ensures
            r is Ok <==> self.url is Some,
            r is Err ==> r->Err_0 matches ApiError::Config(_),
            r matches Ok(q) ==> is_get_of(
                q,
                *self,
                "Shows/"@ + id@ + "/Episodes"@,
                seq![
                    ("Fields"@, "Overview,PrimaryImageAspectRatio,PremiereDate,ProductionYear,SyncStatus"@),
                    ("ImageTypeLimit"@, "1"@),
                    ("SeasonId"@, season_id@),
                    ("UserId"@, self.user_id@),
                ],
            ),
    {
        let mut path = String::from_str("Shows/");
        path.append(id);
        path.append("/Episodes");
        let mut params: Vec<(String, String)> = Vec::new();
        params.push(qp("Fields", "Overview,PrimaryImageAspectRatio,PremiereDate,ProductionYear,SyncStatus"));
        params.push(qp("ImageTypeLimit", "1"));
        params.push(qp("SeasonId", season_id));
        params.push(qpo("UserId", self.user_id.clone()));
        let r = self.request(path.as_str(), &params);
        assert(params_view(params@) =~= seq![
            ("Fields"@, "Overview,PrimaryImageAspectRatio,PremiereDate,ProductionYear,SyncStatus"@),
            ("ImageTypeLimit"@, "1"@),
            ("SeasonId"@, season_id@),
            ("UserId"@, self.user_id@),
        ]);
        r
    }

    /// One item with its share level.
    pub fn get_item_info(&self, id: &str) -> (r: Result<PreparedRequest, ApiError>)
        ensures
            r is Ok <==> self.url is Some,
            r is Err ==> r->Err_0 matches ApiError::Config(_),
            r matches Ok(q) ==> is_get_of(
                q,
                *self,
                "Users/"@ + self.user_id@ + "/Items/"@ + id@,
                seq![
                    ("Fields"@, "ShareLevel"@),
                ],
            ),
    {
        let mut path = String::from_str("Users/");
        path.append(self.user_id.as_str());
        path.append("/Items/");
        path.append(id);
        let mut params: Vec<(String, String)> = Vec::new();
        params.push(qp("Fields", "ShareLevel"));
        let r = self.request(path.as_str(), &params);
        assert(params_view(params@) =~= seq![
            ("Fields"@, "ShareLevel"@),
        ]);
        r
    }

    /// One item with its channel-mapping info, for editing.
    pub fn get_edit_info(&self, id: &str) -> (r: Result<PreparedRequest, ApiError>)
        ensures
            r is Ok <==> self.url is Some,
            r is Err ==> r->Err_0 matches ApiError::Config(_),
            r matches Ok(q) ==> is_get_of(
                q,
                *self,
                "Users/"@ + self.user_id@ + "/Items/"@ + id@,
                seq![
                    ("Fields"@, "ChannelMappingInfo"@),
                ],
            ),
    {
        let mut path = String::from_str("Users/");
        path.append(self.user_id.as_str());
        path.append("/Items/");
        path.append(id);
        let mut params: Vec<(String, String)> = Vec::new();
        params.push(qp("Fields", "ChannelMappingInfo"));
        let r = self.request(path.as_str(), &params);
        assert(params_view(params@) =~= seq![
            ("Fields"@, "ChannelMappingInfo"@),
        ]);
        r
    }

    /// The resumable videos of the current user.
    pub fn get_resume(&self) -> (r: Result<PreparedRequest, ApiError>)
        ensures
            r is Ok <==> self.url is Some,
            r is Err ==> r->Err_0 matches ApiError::Config(_),
            r matches Ok(q) ==> is_get_of(
                q,
                *self,
                "Users/"@ + self.user_id@ + "/Items/Resume"@,
                seq![
                    ("Recursive"@, "true"@),
                    ("Fields"@, "Overview,BasicSyncInfo,CanDelete,PrimaryImageAspectRatio,ProductionYear,CommunityRating"@),
                    ("EnableImageTypes"@, "Primary,Backdrop,Thumb,Banner"@),
                    ("ImageTypeLimit"@, "1"@),
                    ("MediaTypes"@, "Video"@),
                ],
            ),
    {
        let mut path = String::from_str("Users/");
        path.append(self.user_id.as_str());
        path.append("/Items/Resume");
        let mut params: Vec<(String, String)> = Vec::new();
        params.push(qp("Recursive", "true"));
        params.push(qp("Fields", "Overview,BasicSyncInfo,CanDelete,PrimaryImageAspectRatio,ProductionYear,CommunityRating"));
        params.push(qp("EnableImageTypes", "Primary,Backdrop,Thumb,Banner"));
        params.push(qp("ImageTypeLimit", "1"));
        params.push(qp("MediaTypes", "Video"));
        let r = self.request(path.as_str(), &params);
        assert(params_view(params@) =~= seq![
            ("Recursive"@, "true"@),
            ("Fields"@, "Overview,BasicSyncInfo,CanDelete,PrimaryImageAspectRatio,ProductionYear,CommunityRating"@),
            ("EnableImageTypes"@, "Primary,Backdrop,Thumb,Banner"@),
            ("ImageTypeLimit"@, "1"@),
            ("MediaTypes"@, "Video"@),
        ]);
        r
    }

    /// The images attached to an item.
    pub fn get_image_items(&self, id: &str) -> (r: Result<PreparedRequest, ApiError>)
        ensures
            r is Ok <==> self.url is Some,
            r is Err ==> r->Err_0 matches ApiError::Config(_),
            r matches Ok(q) ==> is_get_of(
                q,
                *self,
                "Items/"@ + id@ + "/Images"@,
                Seq::empty(),
            ),
    {
        let mut path = String::from_str("Items/");
        path.append(id);
        path.append("/Images");
        let params: Vec<(String, String)> = Vec::new();
        let r = self.request(path.as_str(), &params);
        assert(params_view(params@) =~= Seq::<(Seq<char>, Seq<char>)>::empty());
        r
    }

    /// Other albums of an artist, newest first.
    pub fn get_artist_albums(&self, id: &str, artist_id: &str) -> (r: Result<PreparedRequest, ApiError>)
        ensures
            r is Ok <==> self.url is Some,
            r is Err ==> r->Err_0 matches ApiError::Config(_),
            r matches Ok(q) ==> is_get_of(
                q,
                *self,
                "Users/"@ + self.user_id@ + "/Items"@,
                seq![
                    ("IncludeItemTypes"@, "MusicAlbum"@),
                    ("Recursive"@, "true"@),
                    ("ImageTypeLimit"@, "1"@),
                    ("Limit"@, "12"@),
                    ("SortBy"@, "ProductionYear,SortName"@),
                    ("EnableImageTypes"@, "Primary,Backdrop,Thumb,Banner"@),
                    ("SortOrder"@, "Descending"@),
                    ("Fields"@, "BasicSyncInfo,CanDelete,PrimaryImageAspectRatio,ProductionYear"@),
                    ("AlbumArtistIds"@, artist_id@),
                    ("ExcludeItemIds"@, id@),
                ],
            ),
    {
        let mut path = String::from_str("Users/");
        path.append(self.user_id.as_str());
        path.append("/Items");
        let mut params: Vec<(String, String)> = Vec::new();
        params.push(qp("IncludeItemTypes", "MusicAlbum"));
        params.push(qp("Recursive", "true"));
        params.push(qp("ImageTypeLimit", "1"));
        params.push(qp("Limit", "12"));
        params.push(qp("SortBy", "ProductionYear,SortName"));
        params.push(qp("EnableImageTypes", "Primary,Backdrop,Thumb,Banner"));
        params.push(qp("SortOrder", "Descending"));
        params.push(qp("Fields", "BasicSyncInfo,CanDelete,PrimaryImageAspectRatio,ProductionYear"));
        params.push(qp("AlbumArtistIds", artist_id));
        params.push(qp("ExcludeItemIds", id));
        let r = self.request(path.as_str(), &params);
        assert(params_view(params@) =~= seq![
            ("IncludeItemTypes"@, "MusicAlbum"@),
            ("Recursive"@, "true"@),
            ("ImageTypeLimit"@, "1"@),
            ("Limit"@, "12"@),
            ("SortBy"@, "ProductionYear,SortName"@),
            ("EnableImageTypes"@, "Primary,Backdrop,Thumb,Banner"@),
            ("SortOrder"@, "Descending"@),
            ("Fields"@, "BasicSyncInfo,CanDelete,PrimaryImageAspectRatio,ProductionYear"@),
            ("AlbumArtistIds"@, artist_id@),
            ("ExcludeItemIds"@, id@),
        ]);
        r
    }

    /// The next episode to watch of a series.
    pub fn get_shows_next_up(&self, series_id: &str) -> (r: Result<PreparedRequest, ApiError>)
        ensures
            r is Ok <==> self.url is Some,
            r is Err ==> r->Err_0 matches ApiError::Config(_),
            r matches Ok(q) ==> is_get_of(
                q,
                *self,
                "Shows/NextUp"@,
                seq![
                    ("Fields"@, "BasicSyncInfo,CanDelete,PrimaryImageAspectRatio"@),
                    ("Limit"@, "1"@),
                    ("ImageTypeLimit"@, "1"@),
                    ("SeriesId"@, series_id@),
                    ("UserId"@, self.user_id@),
                ],
            ),
    {
        let path = String::from_str("Shows/NextUp");
        let mut params: Vec<(String, String)> = Vec::new();
        params.push(qp("Fields", "BasicSyncInfo,CanDelete,PrimaryImageAspectRatio"));
        params.push(qp("Limit", "1"));
        params.push(qp("ImageTypeLimit", "1"));
        params.push(qp("SeriesId", series_id));
        params.push(qpo("UserId", self.user_id.clone()));
        let r = self.request(path.as_str(), &params);
        assert(params_view(params@) =~= seq![
            ("Fields"@, "BasicSyncInfo,CanDelete,PrimaryImageAspectRatio"@),
            ("Limit"@, "1"@),
            ("ImageTypeLimit"@, "1"@),
            ("SeriesId"@, series_id@),
            ("UserId"@, self.user_id@),
        ]);
        r
    }

    /// The external-identifier providers usable for an item.
    pub fn get_external_id_info(&self, id: &str) -> (r: Result<PreparedRequest, ApiError>)
        ensures
            r is Ok <==> self.url is Some,
            r is Err ==> r->Err_0 matches ApiError::Config(_),
            r matches Ok(q) ==> is_get_of(
                q,
                *self,
                "Items/"@ + id@ + "/ExternalIdInfos"@,
                seq![
                    ("IsSupportedAsIdentifier"@, "true"@),
                ],
            ),
    {
        let mut path = String::from_str("Items/");
        path.append(id);
        path.append("/ExternalIdInfos");
        let mut params: Vec<(String, String)> = Vec::new();
        params.push(qp("IsSupportedAsIdentifier", "true"));
        let r = self.request(path.as_str(), &params);
        assert(params_view(params@) =~= seq![
            ("IsSupportedAsIdentifier"@, "true"@),
        ]);
        r
    }

    /// The current user's library views.
    pub fn get_library(&self) -> (r: Result<PreparedRequest, ApiError>)
        ensures
            r is Ok <==> self.url is Some,
            r is Err ==> r->Err_0 matches ApiError::Config(_),
            r matches Ok(q) ==> is_get_of(
                q,
                *self,
                "Users/"@ + self.user_id@ + "/Views"@,
                Seq::empty(),
            ),
    {
        let mut path = String::from_str("Users/");
        path.append(self.user_id.as_str());
        path.append("/Views");
        let params: Vec<(String, String)> = Vec::new();
        let r = self.request(path.as_str(), &params);
        assert(params_view(params@) =~= Seq::<(Seq<char>, Seq<char>)>::empty());
        r
    }

    /// The latest items under a library view.
    pub fn get_latest(&self, id: &str) -> (r: Result<PreparedRequest, ApiError>)
        ensures
            r is Ok <==> self.url is Some,
            r is Err ==> r->Err_0 matches ApiError::Config(_),
            r matches Ok(q) ==> is_get_of(
                q,
                *self,
                "Users/"@ + self.user_id@ + "/Items/Latest"@,
                seq![
                    ("Limit"@, "16"@),
                    ("Fields"@, "BasicSyncInfo,CanDelete,PrimaryImageAspectRatio,ProductionYear,CommunityRating"@),
                    ("ParentId"@, id@),
                    ("ImageTypeLimit"@, "1"@),
                    ("EnableImageTypes"@, "Primary,Backdrop,Thumb,Banner"@),
                ],
            ),
    {
        let mut path = String::from_str("Users/");
        path.append(self.user_id.as_str());
        path.append("/Items/Latest");
        let mut params: Vec<(String, String)> = Vec::new();
        params.push(qp("Limit", "16"));
        params.push(qp("Fields", "BasicSyncInfo,CanDelete,PrimaryImageAspectRatio,ProductionYear,CommunityRating"));
        params.push(qp("ParentId", id));
        params.push(qp("ImageTypeLimit", "1"));
        params.push(qp("EnableImageTypes", "Primary,Backdrop,Thumb,Banner"));
        let r = self.request(path.as_str(), &params);
        assert(params_view(params@) =~= seq![
            ("Limit"@, "16"@),
            ("Fields"@, "BasicSyncInfo,CanDelete,PrimaryImageAspectRatio,ProductionYear,CommunityRating"@),
            ("ParentId"@, id@),
            ("ImageTypeLimit"@, "1"@),
            ("EnableImageTypes"@, "Primary,Backdrop,Thumb,Banner"@),
        ]);
        r
    }

    /// Items similar to one item.
    pub fn get_similar(&self, id: &str) -> (r: Result<PreparedRequest, ApiError>)
        ensures
            r is Ok <==> self.url is Some,
            r is Err ==> r->Err_0 matches ApiError::Config(_),
            r matches Ok(q) ==> is_get_of(
                q,
                *self,
                "Items/"@ + id@ + "/Similar"@,
                seq![
                    ("Fields"@, "BasicSyncInfo,CanDelete,PrimaryImageAspectRatio,ProductionYear,Status,EndDate,CommunityRating"@),
                    ("UserId"@, self.user_id@),
                    ("ImageTypeLimit"@, "1"@),
                    ("Limit"@, "12"@),
                ],
            ),
    {
        let mut path = String::from_str("Items/");
        path.append(id);
        path.append("/Similar");
        let mut params: Vec<(String, String)> = Vec::new();
        params.push(qp("Fields", "BasicSyncInfo,CanDelete,PrimaryImageAspectRatio,ProductionYear,Status,EndDate,CommunityRating"));
        params.push(qpo("UserId", self.user_id.clone()));
        params.push(qp("ImageTypeLimit", "1"));
        params.push(qp("Limit", "12"));
        let r = self.request(path.as_str(), &params);
        assert(params_view(params@) =~= seq![
            ("Fields"@, "BasicSyncInfo,CanDelete,PrimaryImageAspectRatio,ProductionYear,Status,EndDate,CommunityRating"@),
            ("UserId"@, self.user_id@),
            ("ImageTypeLimit"@, "1"@),
            ("Limit"@, "12"@),
        ]);
        r
    }

    /// A short list of works a person appears in.
    pub fn get_actor_item_list(&self, id: &str, types: &str) -> (r: Result<PreparedRequest, ApiError>)
        ensures
            r is Ok <==> self.url is Some,
            r is Err ==> r->Err_0 matches ApiError::Config(_),
            r matches Ok(q) ==> is_get_of(
                q,
                *self,
                "Users/"@ + self.user_id@ + "/Items"@,
                seq![
                    ("Fields"@, "PrimaryImageAspectRatio,ProductionYear,CommunityRating"@),
                    ("PersonIds"@, id@),
                    ("Recursive"@, "true"@),
                    ("CollapseBoxSetItems"@, "false"@),
                    ("SortBy"@, "SortName"@),
                    ("SortOrder"@, "Ascending"@),
                    ("IncludeItemTypes"@, types@),
                    ("ImageTypeLimit"@, "1"@),
                    ("Limit"@, "12"@),
                ],
            ),
    {
        let mut path = String::from_str("Users/");
        path.append(self.user_id.as_str());
        path.append("/Items");
        let mut params: Vec<(String, String)> = Vec::new();
        params.push(qp("Fields", "PrimaryImageAspectRatio,ProductionYear,CommunityRating"));
        params.push(qp("PersonIds", id));
        params.push(qp("Recursive", "true"));
        params.push(qp("CollapseBoxSetItems", "false"));
        params.push(qp("SortBy", "SortName"));
        params.push(qp("SortOrder", "Ascending"));
        params.push(qp("IncludeItemTypes", types));
        params.push(qp("ImageTypeLimit", "1"));
        params.push(qp("Limit", "12"));
        let r = self.request(path.as_str(), &params);
        assert(params_view(params@) =~= seq![
            ("Fields"@, "PrimaryImageAspectRatio,ProductionYear,CommunityRating"@),
            ("PersonIds"@, id@),
            ("Recursive"@, "true"@),
            ("CollapseBoxSetItems"@, "false"@),
            ("SortBy"@, "SortName"@),
            ("SortOrder"@, "Ascending"@),
            ("IncludeItemTypes"@, types@),
            ("ImageTypeLimit"@, "1"@),
            ("Limit"@, "12"@),
        ]);
        r
    }

    /// A pageable list of works a person appears in.
    pub fn get_person_large_list(&self, id: &str, types: &str, sort_by: &str, sort_order: &str, start_index: u32) -> (r: Result<PreparedRequest, ApiError>)
        ensures
            r is Ok <==> self.url is Some,
            r is Err ==> r->Err_0 matches ApiError::Config(_),
            r matches Ok(q) ==> is_get_of(
                q,
                *self,
                "Users/"@ + self.user_id@ + "/Items"@,
                seq![
                    ("Fields"@, "Overview,PrimaryImageAspectRatio,ProductionYear,CommunityRating"@),
                    ("PersonIds"@, id@),
                    ("Recursive"@, "true"@),
                    ("CollapseBoxSetItems"@, "false"@),
                    ("SortBy"@, sort_by@),
                    ("SortOrder"@, sort_order@),
                    ("IncludeItemTypes"@, types@),
                    ("StartIndex"@, dec_chars(start_index as nat)),
                    ("ImageTypeLimit"@, "1"@),
                    ("Limit"@, "50"@),
                ],
            ),
    {
        let mut path = String::from_str("Users/");
        path.append(self.user_id.as_str());
        path.append("/Items");
        let mut params: Vec<(String, String)> = Vec::new();
        params.push(qp("Fields", "Overview,PrimaryImageAspectRatio,ProductionYear,CommunityRating"));
        params.push(qp("PersonIds", id));
        params.push(qp("Recursive", "true"));
        params.push(qp("CollapseBoxSetItems", "false"));
        params.push(qp("SortBy", sort_by));
        params.push(qp("SortOrder", sort_order));
        params.push(qp("IncludeItemTypes", types));
        params.push(qpo("StartIndex", u64_to_dec(start_index as u64)));
        params.push(qp("ImageTypeLimit", "1"));
        params.push(qp("Limit", "50"));
        let r = self.request(path.as_str(), &params);
        assert(params_view(params@) =~= seq![
            ("Fields"@, "Overview,PrimaryImageAspectRatio,ProductionYear,CommunityRating"@),
            ("PersonIds"@, id@),
            ("Recursive"@, "true"@),
            ("CollapseBoxSetItems"@, "false"@),
            ("SortBy"@, sort_by@),
            ("SortOrder"@, sort_order@),
            ("IncludeItemTypes"@, types@),
            ("StartIndex"@, dec_chars(start_index as nat)),
            ("ImageTypeLimit"@, "1"@),
            ("Limit"@, "50"@),
        ]);
        r
    }

    /// The continue-watching list of a series.
    pub fn get_continue_play_list(&self, parent_id: &str) -> (r: Result<PreparedRequest, ApiError>)
        ensures
            r is Ok <==> self.url is Some,
            r is Err ==> r->Err_0 matches ApiError::Config(_),
            r matches Ok(q) ==> is_get_of(
                q,
                *self,
                "Shows/NextUp"@,
                seq![
                    ("Fields"@, "BasicSyncInfo,CanDelete,PrimaryImageAspectRatio,Overview"@),
                    ("Limit"@, "40"@),
                    ("ImageTypeLimit"@, "1"@),
                    ("SeriesId"@, parent_id@),
                    ("UserId"@, self.user_id@),
                ],
            ),
    {
        let path = String::from_str("Shows/NextUp");
        let mut params: Vec<(String, String)> = Vec::new();
        params.push(qp("Fields", "BasicSyncInfo,CanDelete,PrimaryImageAspectRatio,Overview"));
        params.push(qp("Limit", "40"));
        params.push(qp("ImageTypeLimit", "1"));
        params.push(qp("SeriesId", parent_id));
        params.push(qpo("UserId", self.user_id.clone()));
        let r = self.request(path.as_str(), &params);
        assert(params_view(params@) =~= seq![
            ("Fields"@, "BasicSyncInfo,CanDelete,PrimaryImageAspectRatio,Overview"@),
            ("Limit"@, "40"@),
            ("ImageTypeLimit"@, "1"@),
            ("SeriesId"@, parent_id@),
            ("UserId"@, self.user_id@),
        ]);
        r
    }

    /// The seasons of a show.
    pub fn get_season_list(&self, parent_id: &str) -> (r: Result<PreparedRequest, ApiError>)
        ensures
            r is Ok <==> self.url is Some,
            r is Err ==> r->Err_0 matches ApiError::Config(_),
            r matches Ok(q) ==> is_get_of(
                q,
                *self,
                "Shows/"@ + parent_id@ + "/Seasons"@,
                seq![
                    ("Fields"@, "BasicSyncInfo,CanDelete,PremiereDate,PrimaryImageAspectRatio,Overview"@),
                    ("UserId"@, self.user_id@),
                    ("ImageTypeLimit"@, "1"@),
                ],
            ),
    {
        let mut path = String::from_str("Shows/");
        path.append(parent_id);
        path.append("/Seasons");
        let mut params: Vec<(String, String)> = Vec::new();
        params.push(qp("Fields", "BasicSyncInfo,CanDelete,PremiereDate,PrimaryImageAspectRatio,Overview"));
        params.push(qpo("UserId", self.user_id.clone()));
        params.push(qp("ImageTypeLimit", "1"));
        let r = self.request(path.as_str(), &params);
        assert(params_view(params@) =~= seq![
            ("Fields"@, "BasicSyncInfo,CanDelete,PremiereDate,PrimaryImageAspectRatio,Overview"@),
            ("UserId"@, self.user_id@),
            ("ImageTypeLimit"@, "1"@),
        ]);
        r
    }

    /// Recommendations shown on the search page.
    pub fn get_search_recommend(&self) -> (r: Result<PreparedRequest, ApiError>)
        ensures
            r is Ok <==> self.url is Some,
            r is Err ==> r->Err_0 matches ApiError::Config(_),
            r matches Ok(q) ==> is_get_of(
                q,
                *self,
                "Users/"@ + self.user_id@ + "/Items"@,
                seq![
                    ("Limit"@, "20"@),
                    ("EnableTotalRecordCount"@, "false"@),
                    ("ImageTypeLimit"@, "0"@),
                    ("Recursive"@, "true"@),
                    ("IncludeItemTypes"@, "Movie,Series"@),
                    ("SortBy"@, "IsFavoriteOrLiked,Random"@),
                    ("Recursive"@, "true"@),
                ],
            ),
    {
        let mut path = String::from_str("Users/");
        path.append(self.user_id.as_str());
        path.append("/Items");
        let mut params: Vec<(String, String)> = Vec::new();
        params.push(qp("Limit", "20"));
        params.push(qp("EnableTotalRecordCount", "false"));
        params.push(qp("ImageTypeLimit", "0"));
        params.push(qp("Recursive", "true"));
        params.push(qp("IncludeItemTypes", "Movie,Series"));
        params.push(qp("SortBy", "IsFavoriteOrLiked,Random"));
        params.push(qp("Recursive", "true"));
        let r = self.request(path.as_str(), &params);
        assert(params_view(params@) =~= seq![
            ("Limit"@, "20"@),
            ("EnableTotalRecordCount"@, "false"@),
            ("ImageTypeLimit"@, "0"@),
            ("Recursive"@, "true"@),
            ("IncludeItemTypes"@, "Movie,Series"@),
            ("SortBy"@, "IsFavoriteOrLiked,Random"@),
            ("Recursive"@, "true"@),
        ]);
        r
    }

    /// The playlists and collections an item belongs to.
    pub fn get_included(&self, id: &str) -> (r: Result<PreparedRequest, ApiError>)
        ensures
            r is Ok <==> self.url is Some,
            r is Err ==> r->Err_0 matches ApiError::Config(_),
            r matches Ok(q) ==> is_get_of(
                q,
                *self,
                "Users/"@ + self.user_id@ + "/Items"@,
                seq![
                    ("Fields"@, "BasicSyncInfo,CanDelete,PrimaryImageAspectRatio,CommunityRating"@),
                    ("Limit"@, "12"@),
                    ("ListItemIds"@, id@),
                    ("Recursive"@, "true"@),
                    ("IncludeItemTypes"@, "Playlist,BoxSet"@),
                    ("SortBy"@, "SortName"@),
                    ("Recursive"@, "true"@),
                ],
            ),
    {
        let mut path = String::from_str("Users/");
        path.append(self.user_id.as_str());
        path.append("/Items");
        let mut params: Vec<(String, String)> = Vec::new();
        params.push(qp("Fields", "BasicSyncInfo,CanDelete,PrimaryImageAspectRatio,CommunityRating"));
        params.push(qp("Limit", "12"));
        params.push(qp("ListItemIds", id));
        params.push(qp("Recursive", "true"));
        params.push(qp("IncludeItemTypes", "Playlist,BoxSet"));
        params.push(qp("SortBy", "SortName"));
        params.push(qp("Recursive", "true"));
        let r = self.request(path.as_str(), &params);
        assert(params_view(params@) =~= seq![
            ("Fields"@, "BasicSyncInfo,CanDelete,PrimaryImageAspectRatio,CommunityRating"@),
            ("Limit"@, "12"@),
            ("ListItemIds"@, id@),
            ("Recursive"@, "true"@),
            ("IncludeItemTypes"@, "Playlist,BoxSet"@),
            ("SortBy"@, "SortName"@),
            ("Recursive"@, "true"@),
        ]);
        r
    }

    /// The items under a collection, in display order.
    pub fn get_includedby(&self, parent_id: &str) -> (r: Result<PreparedRequest, ApiError>)
        ensures
            r is Ok <==> self.url is Some,
            r is Err ==> r->Err_0 matches ApiError::Config(_),
            r matches Ok(q) ==> is_get_of(
                q,
                *self,
                "Users/"@ + self.user_id@ + "/Items"@,
                seq![
                    ("Fields"@, "BasicSyncInfo,CanDelete,PrimaryImageAspectRatio,ProductionYear,Status,EndDate,CommunityRating"@),
                    ("ImageTypeLimit"@, "1"@),
                    ("ParentId"@, parent_id@),
                    ("SortBy"@, "DisplayOrder"@),
                    ("SortOrder"@, "Ascending"@),
                    ("EnableTotalRecordCount"@, "false"@),
                ],
            ),
    {
        let mut path = String::from_str("Users/");
        path.append(self.user_id.as_str());
        path.append("/Items");
        let mut params: Vec<(String, String)> = Vec::new();
        params.push(qp("Fields", "BasicSyncInfo,CanDelete,PrimaryImageAspectRatio,ProductionYear,Status,EndDate,CommunityRating"));
        params.push(qp("ImageTypeLimit", "1"));
        params.push(qp("ParentId", parent_id));
        params.push(qp("SortBy", "DisplayOrder"));
        params.push(qp("SortOrder", "Ascending"));
        params.push(qp("EnableTotalRecordCount", "false"));
        let r = self.request(path.as_str(), &params);
        assert(params_view(params@) =~= seq![
            ("Fields"@, "BasicSyncInfo,CanDelete,PrimaryImageAspectRatio,ProductionYear,Status,EndDate,CommunityRating"@),
            ("ImageTypeLimit"@, "1"@),
            ("ParentId"@, parent_id@),
            ("SortBy"@, "DisplayOrder"@),
            ("SortOrder"@, "Ascending"@),
            ("EnableTotalRecordCount"@, "false"@),
        ]);
        r
    }

    /// The songs under an album.
    pub fn get_songs(&self, parent_id: &str) -> (r: Result<PreparedRequest, ApiError>)
        ensures
            r is Ok <==> self.url is Some,
            r is Err ==> r->Err_0 matches ApiError::Config(_),
            r matches Ok(q) ==> is_get_of(
                q,
                *self,
                "Users/"@ + self.user_id@ + "/Items"@,
                seq![
                    ("Fields"@, "BasicSyncInfo,CanDelete,PrimaryImageAspectRatio,SyncStatus"@),
                    ("ImageTypeLimit"@, "1"@),
                    ("ParentId"@, parent_id@),
                    ("EnableTotalRecordCount"@, "false"@),
                ],
            ),
    {
        let mut path = String::from_str("Users/");
        path.append(self.user_id.as_str());
        path.append("/Items");
        let mut params: Vec<(String, String)> = Vec::new();
        params.push(qp("Fields", "BasicSyncInfo,CanDelete,PrimaryImageAspectRatio,SyncStatus"));
        params.push(qp("ImageTypeLimit", "1"));
        params.push(qp("ParentId", parent_id));
        params.push(qp("EnableTotalRecordCount", "false"));
        let r = self.request(path.as_str(), &params);
        assert(params_view(params@) =~= seq![
            ("Fields"@, "BasicSyncInfo,CanDelete,PrimaryImageAspectRatio,SyncStatus"@),
            ("ImageTypeLimit"@, "1"@),
            ("ParentId"@, parent_id@),
            ("EnableTotalRecordCount"@, "false"@),
        ]);
        r
    }

    /// The additional parts of a video.
    pub fn get_additional(&self, id: &str) -> (r: Result<PreparedRequest, ApiError>)
        ensures
            r is Ok <==> self.url is Some,
            r is Err ==> r->Err_0 matches ApiError::Config(_),
            r matches Ok(q) ==> is_get_of(
                q,
                *self,
                "Videos/"@ + id@ + "/AdditionalParts"@,
                seq![
                    ("UserId"@, self.user_id@),
                ],
            ),
    {
        let mut path = String::from_str("Videos/");
        path.append(id);
        path.append("/AdditionalParts");
        let mut params: Vec<(String, String)> = Vec::new();
        params.push(qpo("UserId", self.user_id.clone()));
        let r = self.request(path.as_str(), &params);
        assert(params_view(params@) =~= seq![
            ("UserId"@, self.user_id@),
        ]);
        r
    }

    /// A short list of live channels on air.
    pub fn get_channels(&self) -> (r: Result<PreparedRequest, ApiError>)
        ensures
            r is Ok <==> self.url is Some,
            r is Err ==> r->Err_0 matches ApiError::Config(_),
            r matches Ok(q) ==> is_get_of(
                q,
                *self,
                "LiveTv/Channels"@,
                seq![
                    ("IsAiring"@, "true"@),
                    ("userId"@, self.user_id@),
                    ("ImageTypeLimit"@, "1"@),
                    ("Limit"@, "12"@),
                    ("Fields"@, "ProgramPrimaryImageAspectRatio"@),
                    ("SortBy"@, "DefaultChannelOrder"@),
                    ("SortOrder"@, "Ascending"@),
                ],
            ),
    {
        let path = String::from_str("LiveTv/Channels");
        let mut params: Vec<(String, String)> = Vec::new();
        params.push(qp("IsAiring", "true"));
        params.push(qpo("userId", self.user_id.clone()));
        params.push(qp("ImageTypeLimit", "1"));
        params.push(qp("Limit", "12"));
        params.push(qp("Fields", "ProgramPrimaryImageAspectRatio"));
        params.push(qp("SortBy", "DefaultChannelOrder"));
        params.push(qp("SortOrder", "Ascending"));
        let r = self.request(path.as_str(), &params);
        assert(params_view(params@) =~= seq![
            ("IsAiring"@, "true"@),
            ("userId"@, self.user_id@),
            ("ImageTypeLimit"@, "1"@),
            ("Limit"@, "12"@),
            ("Fields"@, "ProgramPrimaryImageAspectRatio"@),
            ("SortBy"@, "DefaultChannelOrder"@),
            ("SortOrder"@, "Ascending"@),
        ]);
        r
    }

    /// A pageable list of live channels on air.
    pub fn get_channels_list(&self, start_index: u32) -> (r: Result<PreparedRequest, ApiError>)
        ensures
            r is Ok <==> self.url is Some,
            r is Err ==> r->Err_0 matches ApiError::Config(_),
            r matches Ok(q) ==> is_get_of(
                q,
                *self,
                "LiveTv/Channels"@,
                seq![
                    ("IsAiring"@, "true"@),
                    ("userId"@, self.user_id@),
                    ("ImageTypeLimit"@, "1"@),
                    ("Limit"@, "50"@),
                    ("Fields"@, "ProgramPrimaryImageAspectRatio"@),
                    ("SortBy"@, "DefaultChannelOrder"@),
                    ("SortOrder"@, "Ascending"@),
                    ("StartIndex"@, dec_chars(start_index as nat)),
                ],
            ),
    {
        let path = String::from_str("LiveTv/Channels");
        let mut params: Vec<(String, String)> = Vec::new();
        params.push(qp("IsAiring", "true"));
        params.push(qpo("userId", self.user_id.clone()));
        params.push(qp("ImageTypeLimit", "1"));
        params.push(qp("Limit", "50"));
        params.push(qp("Fields", "ProgramPrimaryImageAspectRatio"));
        params.push(qp("SortBy", "DefaultChannelOrder"));
        params.push(qp("SortOrder", "Ascending"));
        params.push(qpo("StartIndex", u64_to_dec(start_index as u64)));
        let r = self.request(path.as_str(), &params);
        assert(params_view(params@) =~= seq![
            ("IsAiring"@, "true"@),
            ("userId"@, self.user_id@),
            ("ImageTypeLimit"@, "1"@),
            ("Limit"@, "50"@),
            ("Fields"@, "ProgramPrimaryImageAspectRatio"@),
            ("SortBy"@, "DefaultChannelOrder"@),
            ("SortOrder"@, "Ascending"@),
            ("StartIndex"@, dec_chars(start_index as nat)),
        ]);
        r
    }

    /// The server's system information.
    pub fn get_server_info(&self) -> (r: Result<PreparedRequest, ApiError>)
        ensures
            r is Ok <==> self.url is Some,
            r is Err ==> r->Err_0 matches ApiError::Config(_),
            r matches Ok(q) ==> is_get_of(
                q,
                *self,
                "System/Info"@,
                Seq::empty(),
            ),
    {
        let path = String::from_str("System/Info");
        let params: Vec<(String, String)> = Vec::new();
        let r = self.request(path.as_str(), &params);
        assert(params_view(params@) =~= Seq::<(Seq<char>, Seq<char>)>::empty());
        r
    }

    /// The server's public system information.
    pub fn get_server_info_public(&self) -> (r: Result<PreparedRequest, ApiError>)
        ensures
            r is Ok <==> self.url is Some,
            r is Err ==> r->Err_0 matches ApiError::Config(_),
            r matches Ok(q) ==> is_get_of(
                q,
                *self,
                "System/Info/Public"@,
                Seq::empty(),
            ),
    {
        let path = String::from_str("System/Info/Public");
        let params: Vec<(String, String)> = Vec::new();
        let r = self.request(path.as_str(), &params);
        assert(params_view(params@) =~= Seq::<(Seq<char>, Seq<char>)>::empty());
        r
    }

    /// The newest entries of the server activity log.
    pub fn get_activity_log(&self, has_user_id: bool) -> (r: Result<PreparedRequest, ApiError>)
        ensures
            r is Ok <==> self.url is Some,
            r is Err ==> r->Err_0 matches ApiError::Config(_),
            r matches Ok(q) ==> is_get_of(
                q,
                *self,
                "System/ActivityLog/Entries"@,
                seq![
                    ("Limit"@, "15"@),
                    ("StartIndex"@, "0"@),
                    ("hasUserId"@, if has_user_id { "true"@ } else { "false"@ }),
                ],
            ),
    {
        let path = String::from_str("System/ActivityLog/Entries");
        let mut params: Vec<(String, String)> = Vec::new();
        params.push(qp("Limit", "15"));
        params.push(qp("StartIndex", "0"));
        params.push(qpo("hasUserId", bool_string(has_user_id)));
        let r = self.request(path.as_str(), &params);
        assert(params_view(params@) =~= seq![
            ("Limit"@, "15"@),
            ("StartIndex"@, "0"@),
            ("hasUserId"@, if has_user_id { "true"@ } else { "false"@ }),
        ]);
        r
    }

    /// The server's scheduled tasks.
    pub fn get_scheduled_tasks(&self) -> (r: Result<PreparedRequest, ApiError>)
        ensures
            r is Ok <==> self.url is Some,
            r is Err ==> r->Err_0 matches ApiError::Config(_),
            r matches Ok(q) ==> is_get_of(
                q,
                *self,
                "ScheduledTasks"@,
                Seq::empty(),
            ),
    {
        let path = String::from_str("ScheduledTasks");
        let params: Vec<(String, String)> = Vec::new();
        let r = self.request(path.as_str(), &params);
        assert(params_view(params@) =~= Seq::<(Seq<char>, Seq<char>)>::empty());
        r
    }

    /// Remote images offered by a provider for an item.
    pub fn get_remote_image_list(&self, id: &str, start_index: u32, include_all_languages: bool, type_: &str, provider_name: &str) -> (r: Result<PreparedRequest, ApiError>)
        ensures
            r is Ok <==> self.url is Some,
            r is Err ==> r->Err_0 matches ApiError::Config(_),
            r matches Ok(q) ==> is_get_of(
                q,
                *self,
                "Items/"@ + id@ + "/RemoteImages"@,
                seq![
                    ("Limit"@, "50"@),
                    ("StartIndex"@, dec_chars(start_index as nat)),
                    ("Type"@, type_@),
                    ("IncludeAllLanguages"@, if include_all_languages { "true"@ } else { "false"@ }),
                    ("ProviderName"@, provider_name@),
                ],
            ),
    {
        let mut path = String::from_str("Items/");
        path.append(id);
        path.append("/RemoteImages");
        let mut params: Vec<(String, String)> = Vec::new();
        params.push(qp("Limit", "50"));
        params.push(qpo("StartIndex", u64_to_dec(start_index as u64)));
        params.push(qp("Type", type_));
        params.push(qpo("IncludeAllLanguages", bool_string(include_all_languages)));
        params.push(qp("ProviderName", provider_name));
        let r = self.request(path.as_str(), &params);
        assert(params_view(params@) =~= seq![
            ("Limit"@, "50"@),
            ("StartIndex"@, dec_chars(start_index as nat)),
            ("Type"@, type_@),
            ("IncludeAllLanguages"@, if include_all_languages { "true"@ } else { "false"@ }),
            ("ProviderName"@, provider_name@),
        ]);
        r
    }

    /// Kicks off a default metadata refresh of an item.
    pub fn scan(&self, id: &str) -> (r: Result<PreparedRequest, ApiError>)
        ensures
            r is Ok <==> self.url is Some,
            r is Err ==> r->Err_0 matches ApiError::Config(_),
            r matches Ok(q) ==> is_post_of(
                q,
                *self,
                "Items/"@ + id@ + "/Refresh"@,
                seq![
                    ("Recursive"@, "true"@),
                    ("ImageRefreshMode"@, "Default"@),
                    ("MetadataRefreshMode"@, "Default"@),
                    ("ReplaceAllImages"@, "false"@),
                    ("ReplaceAllMetadata"@, "false"@),
                ],
                JsonV::Obj(Seq::empty()),
            ),
    {
        let mut path = String::from_str("Items/");
        path.append(id);
        path.append("/Refresh");
        let mut params: Vec<(String, String)> = Vec::new();
        params.push(qp("Recursive", "true"));
        params.push(qp("ImageRefreshMode", "Default"));
        params.push(qp("MetadataRefreshMode", "Default"));
        params.push(qp("ReplaceAllImages", "false"));
        params.push(qp("ReplaceAllMetadata", "false"));
        let body = empty_object();
        let r = self.post(path.as_str(), &params, &body);
        assert(params_view(params@) =~= seq![
            ("Recursive"@, "true"@),
            ("ImageRefreshMode"@, "Default"@),
            ("MetadataRefreshMode"@, "Default"@),
            ("ReplaceAllImages"@, "false"@),
            ("ReplaceAllMetadata"@, "false"@),
        ]);
        r
    }

    /// Kicks off a full metadata refresh of an item.
    pub fn fullscan(&self, id: &str, replace_images: &str, replace_metadata: &str) -> (r: Result<PreparedRequest, ApiError>)
        ensures
            r is Ok <==> self.url is Some,
            r is Err ==> r->Err_0 matches ApiError::Config(_),
            r matches Ok(q) ==> is_post_of(
                q,
                *self,
                "Items/"@ + id@ + "/Refresh"@,
                seq![
                    ("Recursive"@, "true"@),
                    ("ImageRefreshMode"@, "FullRefresh"@),
                    ("MetadataRefreshMode"@, "FullRefresh"@),
                    ("ReplaceAllImages"@, replace_images@),
                    ("ReplaceAllMetadata"@, replace_metadata@),
                ],
                JsonV::Obj(Seq::empty()),
            ),
    {
        let mut path = String::from_str("Items/");
        path.append(id);
        path.append("/Refresh");
        let mut params: Vec<(String, String)> = Vec::new();
        params.push(qp("Recursive", "true"));
        params.push(qp("ImageRefreshMode", "FullRefresh"));
        params.push(qp("MetadataRefreshMode", "FullRefresh"));
        params.push(qp("ReplaceAllImages", replace_images));
        params.push(qp("ReplaceAllMetadata", replace_metadata));
        let body = empty_object();
        let r = self.post(path.as_str(), &params, &body);
        assert(params_view(params@) =~= seq![
            ("Recursive"@, "true"@),
            ("ImageRefreshMode"@, "FullRefresh"@),
            ("MetadataRefreshMode"@, "FullRefresh"@),
            ("ReplaceAllImages"@, replace_images@),
            ("ReplaceAllMetadata"@, replace_metadata@),
        ]);
        r
    }

    /// Marks an item as a favorite of the current user.
    pub fn like(&self, id: &str) -> (r: Result<PreparedRequest, ApiError>)
        ensures
            r is Ok <==> self.url is Some,
            r is Err ==> r->Err_0 matches ApiError::Config(_),
            r matches Ok(q) ==> is_post_of(
                q,
                *self,
                "Users/"@ + self.user_id@ + "/FavoriteItems/"@ + id@,
                Seq::empty(),
                JsonV::Obj(Seq::empty()),
            ),
    {
        let mut path = String::from_str("Users/");
        path.append(self.user_id.as_str());
        path.append("/FavoriteItems/");
        path.append(id);
        let params: Vec<(String, String)> = Vec::new();
        let body = empty_object();
        let r = self.post(path.as_str(), &params, &body);
        assert(params_view(params@) =~= Seq::<(Seq<char>, Seq<char>)>::empty());
        r
    }

    /// Removes an item from the current user's favorites.
    pub fn unlike(&self, id: &str) -> (r: Result<PreparedRequest, ApiError>)
        ensures
            r is Ok <==> self.url is Some,
            r is Err ==> r->Err_0 matches ApiError::Config(_),
            r matches Ok(q) ==> is_post_of(
                q,
                *self,
                "Users/"@ + self.user_id@ + "/FavoriteItems/"@ + id@ + "/Delete"@,
                Seq::empty(),
                JsonV::Obj(Seq::empty()),
            ),
    {
        let mut path = String::from_str("Users/");
        path.append(self.user_id.as_str());
        path.append("/FavoriteItems/");
        path.append(id);
        path.append("/Delete");
        let params: Vec<(String, String)> = Vec::new();
        let body = empty_object();
        let r = self.post(path.as_str(), &params, &body);
        assert(params_view(params@) =~= Seq::<(Seq<char>, Seq<char>)>::empty());
        r
    }

    /// Marks an item as played.
    pub fn set_as_played(&self, id: &str) -> (r: Result<PreparedRequest, ApiError>)
        ensures
            r is Ok <==> self.url is Some,
            r is Err ==> r->Err_0 matches ApiError::Config(_),
            r matches Ok(q) ==> is_post_of(
                q,
                *self,
                "Users/"@ + self.user_id@ + "/PlayedItems/"@ + id@,
                Seq::empty(),
                JsonV::Obj(Seq::empty()),
            ),
    {
        let mut path = String::from_str("Users/");
        path.append(self.user_id.as_str());
        path.append("/PlayedItems/");
        path.append(id);
        let params: Vec<(String, String)> = Vec::new();
        let body = empty_object();
        let r = self.post(path.as_str(), &params, &body);
        assert(params_view(params@) =~= Seq::<(Seq<char>, Seq<char>)>::empty());
        r
    }

    /// Marks an item as unplayed.
    pub fn set_as_unplayed(&self, id: &str) -> (r: Result<PreparedRequest, ApiError>)
        ensures
            r is Ok <==> self.url is Some,
            r is Err ==> r->Err_0 matches ApiError::Config(_),
            r matches Ok(q) ==> is_post_of(
                q,
                *self,
                "Users/"@ + self.user_id@ + "/PlayedItems/"@ + id@ + "/Delete"@,
                Seq::empty(),
                JsonV::Obj(Seq::empty()),
            ),
    {
        let mut path = String::from_str("Users/");
        path.append(self.user_id.as_str());
        path.append("/PlayedItems/");
        path.append(id);
        path.append("/Delete");
        let params: Vec<(String, String)> = Vec::new();
        let body = empty_object();
        let r = self.post(path.as_str(), &params, &body);
        assert(params_view(params@) =~= Seq::<(Seq<char>, Seq<char>)>::empty());
        r
    }

    /// Hides an item from the resume list.
    pub fn hide_from_resume(&self, id: &str) -> (r: Result<PreparedRequest, ApiError>)
        ensures
            r is Ok <==> self.url is Some,
            r is Err ==> r->Err_0 matches ApiError::Config(_),
            r matches Ok(q) ==> is_post_of(
                q,
                *self,
                "Users/"@ + self.user_id@ + "/Items/"@ + id@ + "/HideFromResume"@,
                seq![
                    ("Hide"@, "true"@),
                ],
                JsonV::Obj(Seq::empty()),
            ),
    {
        let mut path = String::from_str("Users/");
        path.append(self.user_id.as_str());
        path.append("/Items/");
        path.append(id);
        path.append("/HideFromResume");
        let mut params: Vec<(String, String)> = Vec::new();
        params.push(qp("Hide", "true"));
        let body = empty_object();
        let r = self.post(path.as_str(), &params, &body);
        assert(params_view(params@) =~= seq![
            ("Hide"@, "true"@),
        ]);
        r
    }

    /// Asks the server to shut down.
    pub fn shut_down(&self) -> (r: Result<PreparedRequest, ApiError>)
        ensures
            r is Ok <==> self.url is Some,
            r is Err ==> r->Err_0 matches ApiError::Config(_),
            r matches Ok(q) ==> is_post_of(
                q,
                *self,
                "System/Shutdown"@,
                Seq::empty(),
                JsonV::Obj(Seq::empty()),
            ),
    {
        let path = String::from_str("System/Shutdown");
        let params: Vec<(String, String)> = Vec::new();
        let body = empty_object();
        let r = self.post(path.as_str(), &params, &body);
        assert(params_view(params@) =~= Seq::<(Seq<char>, Seq<char>)>::empty());
        r
    }

    /// Asks the server to restart.
    pub fn restart(&self) -> (r: Result<PreparedRequest, ApiError>)
        ensures
            r is Ok <==> self.url is Some,
            r is Err ==> r->Err_0 matches ApiError::Config(_),
            r matches Ok(q) ==> is_post_of(
                q,
                *self,
                "System/Restart"@,
                Seq::empty(),
                JsonV::Obj(Seq::empty()),
            ),
    {
        let path = String::from_str("System/Restart");
        let params: Vec<(String, String)> = Vec::new();
        let body = empty_object();
        let r = self.post(path.as_str(), &params, &body);
        assert(params_view(params@) =~= Seq::<(Seq<char>, Seq<char>)>::empty());
        r
    }

    /// Starts one scheduled task.
    pub fn run_scheduled_task(&self, id: String) -> (r: Result<PreparedRequest, ApiError>)
        ensures
            r is Ok <==> self.url is Some,
            r is Err ==> r->Err_0 matches ApiError::Config(_),
            r matches Ok(q) ==> is_post_of(
                q,
                *self,
                "ScheduledTasks/Running/"@ + id@,
                Seq::empty(),
                JsonV::Obj(Seq::empty()),
            ),
    {
        let mut path = String::from_str("ScheduledTasks/Running/");
        path.append(id.as_str());
        let params: Vec<(String, String)> = Vec::new();
        let body = empty_object();
        let r = self.post(path.as_str(), &params, &body);
        assert(params_view(params@) =~= Seq::<(Seq<char>, Seq<char>)>::empty());
        r
    }

    /// The items directly under a folder, folders first.
    pub fn get_folder_include(
        &self,
        parent_id: &str,
        sort_by: &str,
        sort_order: &str,
        start_index: u32,
    ) -> (r: Result<PreparedRequest, ApiError>)
        ensures
            r is Ok <==> self.url is Some,
            r is Err ==> r->Err_0 matches ApiError::Config(_),
            r matches Ok(q) ==> is_get_of(
                q,
                *self,
                "Users/"@ + self.user_id@ + "/Items"@,
                seq![
                    (
                        "Fields"@,
                        "BasicSyncInfo,CanDelete,PrimaryImageAspectRatio,ProductionYear,Status,EndDate,CommunityRating"@,
                    ),
                    ("StartIndex"@, dec_chars(start_index as nat)),
                    ("ImageTypeLimit"@, "1"@),
                    ("Limit"@, "50"@),
                    ("ParentId"@, parent_id@),
                    ("SortBy"@, "IsFolder,"@ + sort_by@),
                    ("SortOrder"@, sort_order@),
                    ("EnableTotalRecordCount"@, "true"@),
                ],
            ),
    {
        let mut sort_by_full = String::from_str("IsFolder,");
        sort_by_full.append(sort_by);
        let mut path = String::from_str("Users/");
        path.append(self.user_id.as_str());
        path.append("/Items");
        let mut params: Vec<(String, String)> = Vec::new();
        params.push(
            qp(
                "Fields",
                "BasicSyncInfo,CanDelete,PrimaryImageAspectRatio,ProductionYear,Status,EndDate,CommunityRating",
            ),
        );
        params.push(qpo("StartIndex", u64_to_dec(start_index as u64)));
        params.push(qp("ImageTypeLimit", "1"));
        params.push(qp("Limit", "50"));
        params.push(qp("ParentId", parent_id));
        params.push(qpo("SortBy", sort_by_full));
        params.push(qp("SortOrder", sort_order));
        params.push(qp("EnableTotalRecordCount", "true"));
        let r = self.request(path.as_str(), &params);
        assert(params_view(params@) =~= seq![
            (
                "Fields"@,
                "BasicSyncInfo,CanDelete,PrimaryImageAspectRatio,ProductionYear,Status,EndDate,CommunityRating"@,
            ),
            ("StartIndex"@, dec_chars(start_index as nat)),
            ("ImageTypeLimit"@, "1"@),
            ("Limit"@, "50"@),
            ("ParentId"@, parent_id@),
            ("SortBy"@, "IsFolder,"@ + sort_by@),
            ("SortOrder"@, sort_order@),
            ("EnableTotalRecordCount"@, "true"@),
        ]);
        r
    }

    /// The current user's favorites of one type. Favorite people are served
    /// from the person registry, with the user passed explicitly.
    pub fn get_favourite(
        &self,
        types: &str,
        start: u32,
        limit: u32,
        sort_by: &str,
        sort_order: &str,
    ) -> (r: Result<PreparedRequest, ApiError>)
        ensures
            r is Ok <==> self.url is Some,
            r is Err ==> r->Err_0 matches ApiError::Config(_),
            r matches Ok(q) ==> is_get_of(
                q,
                *self,
                if types@ == "People"@ {
                    "Persons"@
                } else {
                    "Users/"@ + self.user_id@ + "/Items"@
                },
                seq![
                    (
                        "Fields"@,
                        "BasicSyncInfo,CanDelete,PrimaryImageAspectRatio,ProductionYear,CommunityRating"@,
                    ),
                    ("Filters"@, "IsFavorite"@),
                    ("Recursive"@, "true"@),
                    ("CollapseBoxSetItems"@, "false"@),
                    ("SortBy"@, sort_by@),
                    ("SortOrder"@, sort_order@),
                    ("IncludeItemTypes"@, types@),
                    ("Limit"@, dec_chars(limit as nat)),
                    ("StartIndex"@, dec_chars(start as nat)),
                    (
                        if types@ == "People"@ {
                            ("UserId"@, self.user_id@)
                        } else {
                            (""@, ""@)
                        }
                    ),
                ],
            ),
    {
        let people = crate::text::str_eq(types, "People");
        let path = if people {
            String::from_str("Persons")
        } else {
            let mut p = String::from_str("Users/");
            p.append(self.user_id.as_str());
            p.append("/Items");
            p
        };
        let mut params: Vec<(String, String)> = Vec::new();
        params.push(
            qp(
                "Fields",
                "BasicSyncInfo,CanDelete,PrimaryImageAspectRatio,ProductionYear,CommunityRating",
            ),
        );
        params.push(qp("Filters", "IsFavorite"));
        params.push(qp("Recursive", "true"));
        params.push(qp("CollapseBoxSetItems", "false"));
        params.push(qp("SortBy", sort_by));
        params.push(qp("SortOrder", sort_order));
        params.push(qp("IncludeItemTypes", types));
        params.push(qpo("Limit", u64_to_dec(limit as u64)));
        params.push(qpo("StartIndex", u64_to_dec(start as u64)));
        if people {
            params.push(qpo("UserId", self.user_id.clone()));
        } else {
            params.push(qp("", ""));
        }
        let r = self.request(path.as_str(), &params);
        assert(params_view(params@) =~= seq![
            (
                "Fields"@,
                "BasicSyncInfo,CanDelete,PrimaryImageAspectRatio,ProductionYear,CommunityRating"@,
            ),
            ("Filters"@, "IsFavorite"@),
            ("Recursive"@, "true"@),
            ("CollapseBoxSetItems"@, "false"@),
            ("SortBy"@, sort_by@),
            ("SortOrder"@, sort_order@),
            ("IncludeItemTypes"@, types@),
            ("Limit"@, dec_chars(limit as nat)),
            ("StartIndex"@, dec_chars(start as nat)),
            (
                if types@ == "People"@ {
                    ("UserId"@, self.user_id@)
                } else {
                    (""@, ""@)
                }
            ),
        ]);
        r
    }

    /// The conditional GET for one image of an item: height and width caps
    /// depend on whether a backdrop is asked for, and a known entity tag
    /// rides along for revalidation.
    pub fn image_request(
        &self,
        id: &str,
        image_type: &str,
        tag: Option<u8>,
        etag: Option<String>,
    ) -> (r: Result<PreparedRequest, ApiError>)
        ensures
            r is Ok <==> self.url is Some,
            r is Err ==> r->Err_0 matches ApiError::Config(_),
            r matches Ok(q) ==> is_picture_of(
                q,
                *self,
                "Items/"@ + id@ + "/Images/"@ + image_type@ + (match tag {
                    Some(t) => "/"@ + dec_chars(t as nat),
                    None => Seq::empty(),
                }),
                seq![
                    (
                        "maxHeight"@,
                        if image_type@ == "Backdrop"@ {
                            "800"@
                        } else {
                            "300"@
                        },
                    ),
                    (
                        "maxWidth"@,
                        if image_type@ == "Backdrop"@ {
                            "1280"@
                        } else {
                            "300"@
                        },
                    ),
                ],
                etag,
            ),
    {
        let mut path = String::from_str("Items/");
        path.append(id);
        path.append("/Images/");
        path.append(image_type);
        match tag {
            Some(t) => {
                path.append("/");
                let d = u64_to_dec(t as u64);
                path.append(d.as_str());
            },
            None => {},
        }
        assert(path@ =~= "Items/"@ + id@ + "/Images/"@ + image_type@ + (match tag {
            Some(t) => "/"@ + dec_chars(t as nat),
            None => Seq::<char>::empty(),
        }));
        let backdrop = crate::text::str_eq(image_type, "Backdrop");
        let mut params: Vec<(String, String)> = Vec::new();
        params.push(qp("maxHeight", if backdrop { "800" } else { "300" }));
        params.push(qp("maxWidth", if backdrop { "1280" } else { "300" }));
        let r = self.request_picture(path.as_str(), &params, etag);
        assert(params_view(params@) =~= seq![
            (
                "maxHeight"@,
                if image_type@ == "Backdrop"@ {
                    "800"@
                } else {
                    "300"@
                },
            ),
            (
                "maxWidth"@,
                if image_type@ == "Backdrop"@ {
                    "1280"@
                } else {
                    "300"@
                },
            ),
        ]);
        r
    }

    /// The fetch of the current user's small avatar image.
    pub fn get_user_avatar(&self) -> (r: Result<PreparedRequest, ApiError>)
        ensures
            r is Ok <==> self.url is Some,
            r is Err ==> r->Err_0 matches ApiError::Config(_),
            r matches Ok(q) ==> is_picture_of(
                q,
                *self,
                "Users/"@ + self.user_id@ + "/Images/Primary"@,
                seq![("maxHeight"@, "50"@), ("maxWidth"@, "50"@)],
                None,
            ),
    {
        let mut path = String::from_str("Users/");
        path.append(self.user_id.as_str());
        path.append("/Images/Primary");
        let mut params: Vec<(String, String)> = Vec::new();
        params.push(qp("maxHeight", "50"));
        params.push(qp("maxWidth", "50"));
        let r = self.request_picture(path.as_str(), &params, None);
        assert(params_view(params@) =~= seq![("maxHeight"@, "50"@), ("maxWidth"@, "50"@)]);
        r
    }

    /// Uploads an image for an item as raw bytes with an explicit content
    /// type.
    pub fn post_image(
        &self,
        id: &str,
        image_type: &str,
        bytes: Vec<u8>,
        content_type: &str,
    ) -> (r: Result<PreparedRequest, ApiError>)
        ensures
            r is Ok <==> self.url is Some,
            r is Err ==> r->Err_0 matches ApiError::Config(_),
            r matches Ok(q) ==> {
                &&& q.method == Method::Post
                &&& q.url@ == request_url_chars(
                    self.url->0.base_chars(),
                    "Items/"@ + id@ + "/Images/"@ + image_type@,
                    Seq::empty(),
                )
                &&& q.headers.accept_encoding@ == "gzip"@
                &&& q.headers.authorization@ == self.auth_header@
                &&& q.headers.token@ == self.token_header@
                &&& q.content_type matches Some(ct) && ct@ == content_type@
                &&& q.if_none_match is None
                &&& q.body matches Some(b) && b@ == bytes@
            },
    {
        let mut path = String::from_str("Items/");
        path.append(id);
        path.append("/Images/");
        path.append(image_type);
        self.post_raw(path.as_str(), bytes, content_type)
    }

    /// Asks the server to fetch an item's image from a remote URL.
    pub fn post_image_url(&self, id: &str, image_type: &str, tag: u8, url: &str) -> (r: Result<
        PreparedRequest,
        ApiError,
    >)
        ensures
            r is Ok <==> self.url is Some,
            r is Err ==> r->Err_0 matches ApiError::Config(_),
            r matches Ok(q) ==> is_post_of(
                q,
                *self,
                "Items/"@ + id@ + "/Images/"@ + dec_chars(tag as nat) + "/"@ + image_type@,
                Seq::empty(),
                JsonV::Obj(
                    seq![
                        (
                            vstd::utf8::encode_utf8("Url"@),
                            JsonV::Str(vstd::utf8::encode_utf8(url@)),
                        ),
                    ],
                ),
            ),
    {
        let mut path = String::from_str("Items/");
        path.append(id);
        path.append("/Images/");
        let d = u64_to_dec(tag as u64);
        path.append(d.as_str());
        path.append("/");
        path.append(image_type);
        let body = crate::json::string_object_1("Url", url);
        let params: Vec<(String, String)> = Vec::new();
        assert(params_view(params@) =~= Seq::<(Seq<char>, Seq<char>)>::empty());
        self.post(path.as_str(), &params, &body)
    }

    /// Deletes one image of an item.
    pub fn delete_image(&self, id: &str, image_type: &str, tag: Option<u8>) -> (r: Result<
        PreparedRequest,
        ApiError,
    >)
        ensures
            r is Ok <==> self.url is Some,
            r is Err ==> r->Err_0 matches ApiError::Config(_),
            r matches Ok(q) ==> is_post_of(
                q,
                *self,
                "Items/"@ + id@ + "/Images/"@ + image_type@ + (match tag {
                    Some(t) => "/"@ + dec_chars(t as nat),
                    None => Seq::empty(),
                }) + "/Delete"@,
                Seq::empty(),
                JsonV::Obj(Seq::empty()),
            ),
    {
        let mut path = String::from_str("Items/");
        path.append(id);
        path.append("/Images/");
        path.append(image_type);
        match tag {
            Some(t) => {
                path.append("/");
                let d = u64_to_dec(t as u64);
                path.append(d.as_str());
            },
            None => {},
        }
        path.append("/Delete");
        assert(path@ =~= "Items/"@ + id@ + "/Images/"@ + image_type@ + (match tag {
            Some(t) => "/"@ + dec_chars(t as nat),
            None => Seq::<char>::empty(),
        }) + "/Delete"@);
        let body = empty_object();
        let params: Vec<(String, String)> = Vec::new();
        assert(params_view(params@) =~= Seq::<(Seq<char>, Seq<char>)>::empty());
        self.post(path.as_str(), &params, &body)
    }

    /// Asks for playback information of an item, posting the player's
    /// stream profile.
    pub fn get_playbackinfo(&self, id: &str, profile: &Json) -> (r: Result<
        PreparedRequest,
        ApiError,
    >)
        ensures
            r is Ok <==> self.url is Some,
            r is Err ==> r->Err_0 matches ApiError::Config(_),
            r matches Ok(q) ==> is_post_of(
                q,
                *self,
                "Items/"@ + id@ + "/PlaybackInfo"@,
                seq![
                    ("StartTimeTicks"@, "0"@),
                    ("UserId"@, self.user_id@),
                    ("AutoOpenLiveStream"@, "true"@),
                    ("IsPlayback"@, "true"@),
                    ("AudioStreamIndex"@, "1"@),
                    ("SubtitleStreamIndex"@, "1"@),
                    ("MaxStreamingBitrate"@, "2147483647"@),
                    ("reqformat"@, "json"@),
                ],
                view_of(*profile),
            ),
    {
        let mut path = String::from_str("Items/");
        path.append(id);
        path.append("/PlaybackInfo");
        let mut params: Vec<(String, String)> = Vec::new();
        params.push(qp("StartTimeTicks", "0"));
        params.push(qpo("UserId", self.user_id.clone()));
        params.push(qp("AutoOpenLiveStream", "true"));
        params.push(qp("IsPlayback", "true"));
        params.push(qp("AudioStreamIndex", "1"));
        params.push(qp("SubtitleStreamIndex", "1"));
        params.push(qp("MaxStreamingBitrate", "2147483647"));
        params.push(qp("reqformat", "json"));
        let r = self.post(path.as_str(), &params, profile);
        assert(params_view(params@) =~= seq![
            ("StartTimeTicks"@, "0"@),
            ("UserId"@, self.user_id@),
            ("AutoOpenLiveStream"@, "true"@),
            ("IsPlayback"@, "true"@),
            ("AudioStreamIndex"@, "1"@),
            ("SubtitleStreamIndex"@, "1"@),
            ("MaxStreamingBitrate"@, "2147483647"@),
            ("reqformat"@, "json"@),
        ]);
        r
    }

    /// Asks for playback information of a live channel, without opening the
    /// stream.
    pub fn get_live_playbackinfo(&self, id: &str, profile: &Json) -> (r: Result<
        PreparedRequest,
        ApiError,
    >)
        ensures
            r is Ok <==> self.url is Some,
            r is Err ==> r->Err_0 matches ApiError::Config(_),
            r matches Ok(q) ==> is_post_of(
                q,
                *self,
                "Items/"@ + id@ + "/PlaybackInfo"@,
                seq![
                    ("StartTimeTicks"@, "0"@),
                    ("UserId"@, self.user_id@),
                    ("AutoOpenLiveStream"@, "false"@),
                    ("IsPlayback"@, "false"@),
                    ("MaxStreamingBitrate"@, "2147483647"@),
                    ("reqformat"@, "json"@),
                ],
                view_of(*profile),
            ),
    {
        let mut path = String::from_str("Items/");
        path.append(id);
        path.append("/PlaybackInfo");
        let mut params: Vec<(String, String)> = Vec::new();
        params.push(qp("StartTimeTicks", "0"));
        params.push(qpo("UserId", self.user_id.clone()));
        params.push(qp("AutoOpenLiveStream", "false"));
        params.push(qp("IsPlayback", "false"));
        params.push(qp("MaxStreamingBitrate", "2147483647"));
        params.push(qp("reqformat", "json"));
        let r = self.post(path.as_str(), &params, profile);
        assert(params_view(params@) =~= seq![
            ("StartTimeTicks"@, "0"@),
            ("UserId"@, self.user_id@),
            ("AutoOpenLiveStream"@, "false"@),
            ("IsPlayback"@, "false"@),
            ("MaxStreamingBitrate"@, "2147483647"@),
            ("reqformat"@, "json"@),
        ]);
        r
    }

    /// Asks for playback information of one media source, to pick subtitle
    /// streams from.
    pub fn get_sub(&self, id: &str, source_id: &str, profile: &Json) -> (r: Result<
        PreparedRequest,
        ApiError,
    >)
        ensures
            r is Ok <==> self.url is Some,
            r is Err ==> r->Err_0 matches ApiError::Config(_),
            r matches Ok(q) ==> is_post_of(
                q,
                *self,
                "Items/"@ + id@ + "/PlaybackInfo"@,
                seq![
                    ("StartTimeTicks"@, "0"@),
                    ("UserId"@, self.user_id@),
                    ("AutoOpenLiveStream"@, "true"@),
                    ("IsPlayback"@, "true"@),
                    ("AudioStreamIndex"@, "1"@),
                    ("SubtitleStreamIndex"@, "1"@),
                    ("MediaSourceId"@, source_id@),
                    ("MaxStreamingBitrate"@, "4000000"@),
                    ("reqformat"@, "json"@),
                ],
                view_of(*profile),
            ),
    {
        let mut path = String::from_str("Items/");
        path.append(id);
        path.append("/PlaybackInfo");
        let mut params: Vec<(String, String)> = Vec::new();
        params.push(qp("StartTimeTicks", "0"));
        params.push(qpo("UserId", self.user_id.clone()));
        params.push(qp("AutoOpenLiveStream", "true"));
        params.push(qp("IsPlayback", "true"));
        params.push(qp("AudioStreamIndex", "1"));
        params.push(qp("SubtitleStreamIndex", "1"));
        params.push(qp("MediaSourceId", source_id));
        params.push(qp("MaxStreamingBitrate", "4000000"));
        params.push(qp("reqformat", "json"));
        let r = self.post(path.as_str(), &params, profile);
        assert(params_view(params@) =~= seq![
            ("StartTimeTicks"@, "0"@),
            ("UserId"@, self.user_id@),
            ("AutoOpenLiveStream"@, "true"@),
            ("IsPlayback"@, "true"@),
            ("AudioStreamIndex"@, "1"@),
            ("SubtitleStreamIndex"@, "1"@),
            ("MediaSourceId"@, source_id@),
            ("MaxStreamingBitrate"@, "4000000"@),
            ("reqformat"@, "json"@),
        ]);
        r
    }

    /// Searches a metadata provider for matches of one item.
    pub fn remote_search(&self, type_: &str, info: &Json) -> (r: Result<
        PreparedRequest,
        ApiError,
    >)
        ensures
            r is Ok <==> self.url is Some,
            r is Err ==> r->Err_0 matches ApiError::Config(_),
            r matches Ok(q) ==> is_post_of(
                q,
                *self,
                "Items/RemoteSearch/"@ + type_@,
                Seq::empty(),
                view_of(*info),
            ),
    {
        let mut path = String::from_str("Items/RemoteSearch/");
        path.append(type_);
        let params: Vec<(String, String)> = Vec::new();
        assert(params_view(params@) =~= Seq::<(Seq<char>, Seq<char>)>::empty());
        self.post(path.as_str(), &params, info)
    }

    /// Changes the current user's password, presenting the stored one.
    pub fn change_password(&self, new_password: &str) -> (r: Result<PreparedRequest, ApiError>)
        ensures
            r is Ok <==> self.url is Some,
            r is Err ==> r->Err_0 matches ApiError::Config(_),
            r matches Ok(q) ==> is_post_of(
                q,
                *self,
                "Users/"@ + self.user_id@ + "/Password"@,
                Seq::empty(),
                JsonV::Obj(
                    seq![
                        (
                            vstd::utf8::encode_utf8("CurrentPw"@),
                            JsonV::Str(vstd::utf8::encode_utf8(self.user_password@)),
                        ),
                        (
                            vstd::utf8::encode_utf8("NewPw"@),
                            JsonV::Str(vstd::utf8::encode_utf8(new_password@)),
                        ),
                    ],
                ),
            ),
    {
        let mut path = String::from_str("Users/");
        path.append(self.user_id.as_str());
        path.append("/Password");
        let body = crate::json::string_object_2(
            "CurrentPw",
            self.user_password.as_str(),
            "NewPw",
            new_password,
        );
        let params: Vec<(String, String)> = Vec::new();
        assert(params_view(params@) =~= Seq::<(Seq<char>, Seq<char>)>::empty());
        self.post(path.as_str(), &params, &body)
    }

    /// The items of a library page: path, item types and parameters depend
    /// on the kind of list asked for.
    pub fn get_list(
        &self,
        id: &str,
        start: u32,
        include_item_types: &str,
        list_type: ListType,
        sort_order: &str,
        sortby: &str,
    ) -> (r: Result<PreparedRequest, ApiError>)
        ensures
            r is Ok <==> self.url is Some,
            r is Err ==> r->Err_0 matches ApiError::Config(_),
            r matches Ok(q) ==> is_get_of(
                q,
                *self,
                list_path_chars(list_type, self.user_id@),
                list_params(
                    list_type,
                    id@,
                    start as nat,
                    list_include_type(list_type, include_item_types@),
                    sort_order@,
                    sortby@,
                    self.user_id@,
                ),
            ),
    {
        let path = match list_type {
            ListType::Resume => {
                let mut p = String::from_str("Users/");
                p.append(self.user_id.as_str());
                p.append("/Items/Resume");
                p
            },
            ListType::Genres => String::from_str("Genres"),
            _ => {
                let mut p = String::from_str("Users/");
                p.append(self.user_id.as_str());
                p.append("/Items");
                p
            },
        };
        let include_item_type: &str = match list_type {
            ListType::Tags => "Tag",
            ListType::BoxSet => "BoxSet",
            _ => include_item_types,
        };
        let start_string = u64_to_dec(start as u64);
        let mut params: Vec<(String, String)> = Vec::new();
        match list_type {
            ListType::Resume => {
                params.push(
                    qp(
                        "Fields",
                        "Overview,BasicSyncInfo,CanDelete,PrimaryImageAspectRatio,ProductionYear",
                    ),
                );
                params.push(qp("ParentId", id));
                params.push(qp("EnableImageTypes", "Primary,Backdrop,Thumb,Banner"));
                params.push(qp("ImageTypeLimit", "1"));
                let resume_type: &str = if crate::text::str_eq(include_item_type, "Series") {
                    "Episode"
                } else {
                    include_item_type
                };
                params.push(qp("IncludeItemTypes", resume_type));
                params.push(qp("Limit", "30"));
            },
            ListType::Genres => {
                params.push(qp("Fields", "BasicSyncInfo,CanDelete,PrimaryImageAspectRatio"));
                params.push(qp("IncludeItemTypes", include_item_type));
                params.push(qpo("StartIndex", start_string));
                params.push(qp("ImageTypeLimit", "1"));
                params.push(qp("EnableImageTypes", "Primary,Backdrop,Thumb,Banner"));
                params.push(qp("Limit", "50"));
                params.push(qpo("userId", self.user_id.clone()));
                params.push(qp("Recursive", "true"));
                params.push(qp("ParentId", id));
            },
            _ => {
                params.push(qp("Limit", "50"));
                params.push(
                    qp(
                        "Fields",
                        "Overview,BasicSyncInfo,CanDelete,PrimaryImageAspectRatio,ProductionYear,Status,EndDate,CommunityRating",
                    ),
                );
                params.push(qp("ParentId", id));
                params.push(qp("ImageTypeLimit", "1"));
                params.push(qpo("StartIndex", start_string));
                params.push(qp("Recursive", "true"));
                params.push(qp("IncludeItemTypes", include_item_type));
                params.push(qp("SortBy", sortby));
                params.push(qp("SortOrder", sort_order));
                params.push(qp("EnableImageTypes", "Primary,Backdrop,Thumb,Banner"));
                if list_type == ListType::Liked {
                    params.push(qp("Filters", "IsFavorite"));
                } else {
                    params.push(qp("", ""));
                }
            },
        }
        let r = self.request(path.as_str(), &params);
        assert(params_view(params@) =~= list_params(
            list_type,
            id@,
            start as nat,
            list_include_type(list_type, include_item_types@),
            sort_order@,
            sortby@,
            self.user_id@,
        ));
        r
    }

    /// The items under a genre, studio or tag, optionally narrowed to one
    /// library.
    pub fn get_inlist(
        &self,
        id: Option<String>,
        start: u32,
        listtype: &str,
        parentid: &str,
        sort_order: &str,
        sortby: &str,
    ) -> (r: Result<PreparedRequest, ApiError>)
        ensures
            r is Ok <==> self.url is Some,
            r is Err ==> r->Err_0 matches ApiError::Config(_),
            r matches Ok(q) ==> is_get_of(
                q,
                *self,
                "Users/"@ + self.user_id@ + "/Items"@,
                seq![
                    ("Limit"@, "50"@),
                    (
                        "Fields"@,
                        "Overview,BasicSyncInfo,CanDelete,PrimaryImageAspectRatio,ProductionYear,Status,EndDate,CommunityRating"@,
                    ),
                    ("ImageTypeLimit"@, "1"@),
                    ("StartIndex"@, dec_chars(start as nat)),
                    ("Recursive"@, "true"@),
                    ("IncludeItemTypes"@, "Movie,Series,MusicAlbum"@),
                    ("SortBy"@, sortby@),
                    ("SortOrder"@, sort_order@),
                    ("EnableImageTypes"@, "Primary,Backdrop,Thumb,Banner"@),
                    (
                        if listtype@ == "Genres"@ || listtype@ == "Genre"@ {
                            ("GenreIds"@, parentid@)
                        } else if listtype@ == "Studios"@ {
                            ("StudioIds"@, parentid@)
                        } else {
                            ("TagIds"@, parentid@)
                        }
                    ),
                ] + (match id {
                    Some(s) => seq![("ParentId"@, s@)],
                    None => Seq::<(Seq<char>, Seq<char>)>::empty(),
                }),
            ),
    {
        let mut path = String::from_str("Users/");
        path.append(self.user_id.as_str());
        path.append("/Items");
        let mut params: Vec<(String, String)> = Vec::new();
        params.push(qp("Limit", "50"));
        params.push(
            qp(
                "Fields",
                "Overview,BasicSyncInfo,CanDelete,PrimaryImageAspectRatio,ProductionYear,Status,EndDate,CommunityRating",
            ),
        );
        params.push(qp("ImageTypeLimit", "1"));
        params.push(qpo("StartIndex", u64_to_dec(start as u64)));
        params.push(qp("Recursive", "true"));
        params.push(qp("IncludeItemTypes", "Movie,Series,MusicAlbum"));
        params.push(qp("SortBy", sortby));
        params.push(qp("SortOrder", sort_order));
        params.push(qp("EnableImageTypes", "Primary,Backdrop,Thumb,Banner"));
        if crate::text::str_eq(listtype, "Genres") || crate::text::str_eq(listtype, "Genre") {
            params.push(qp("GenreIds", parentid));
        } else if crate::text::str_eq(listtype, "Studios") {
            params.push(qp("StudioIds", parentid));
        } else {
            params.push(qp("TagIds", parentid));
        }
        match &id {
            Some(s) => {
                params.push(qpo("ParentId", s.clone()));
            },
            None => {},
        }
        let r = self.request(path.as_str(), &params);
        assert(params_view(params@) =~= seq![
            ("Limit"@, "50"@),
            (
                "Fields"@,
                "Overview,BasicSyncInfo,CanDelete,PrimaryImageAspectRatio,ProductionYear,Status,EndDate,CommunityRating"@,
            ),
            ("ImageTypeLimit"@, "1"@),
            ("StartIndex"@, dec_chars(start as nat)),
            ("Recursive"@, "true"@),
            ("IncludeItemTypes"@, "Movie,Series,MusicAlbum"@),
            ("SortBy"@, sortby@),
            ("SortOrder"@, sort_order@),
            ("EnableImageTypes"@, "Primary,Backdrop,Thumb,Banner"@),
            (
                if listtype@ == "Genres"@ || listtype@ == "Genre"@ {
                    ("GenreIds"@, parentid@)
                } else if listtype@ == "Studios"@ {
                    ("StudioIds"@, parentid@)
                } else {
                    ("TagIds"@, parentid@)
                }
            ),
        ] + (match id {
            Some(s) => seq![("ParentId"@, s@)],
            None => Seq::<(Seq<char>, Seq<char>)>::empty(),
        }));
        r
    }

    /// Reports playback state to the session endpoint chosen by the report
    /// kind: starting, stopped, or a progress update.
    pub fn position_back(&self, back: &Back, backtype: BackType) -> (r: Result<
        PreparedRequest,
        ApiError,
    >)
        ensures
            r is Ok <==> self.url is Some,
            r is Err ==> r->Err_0 matches ApiError::Config(_),
            r matches Ok(q) ==> is_post_of(
                q,
                *self,
                match backtype {
                    BackType::Start => "Sessions/Playing"@,
                    BackType::Stop => "Sessions/Playing/Stopped"@,
                    BackType::Back => "Sessions/Playing/Progress"@,
                },
                seq![("reqformat"@, "json"@)],
                position_back_body(*back),
            ),
    {
        let path = match backtype {
            BackType::Start => String::from_str("Sessions/Playing"),
            BackType::Stop => String::from_str("Sessions/Playing/Stopped"),
            BackType::Back => String::from_str("Sessions/Playing/Progress"),
        };
        let mut params: Vec<(String, String)> = Vec::new();
        params.push(qp("reqformat", "json"));
        let mut members: Vec<(String, Json)> = Vec::new();
        members.push((String::from_str("VolumeLevel"), Json::Num(String::from_str("100"))));
        let queue: Vec<Json> = Vec::new();
        assert(crate::json::views_of(queue@) =~= Seq::<JsonV>::empty());
        members.push((String::from_str("NowPlayingQueue"), Json::Arr(queue)));
        members.push((String::from_str("IsMuted"), Json::Bool(false)));
        members.push((String::from_str("IsPaused"), Json::Bool(false)));
        members.push(
            (String::from_str("MaxStreamingBitrate"), Json::Num(String::from_str("2147483647"))),
        );
        members.push((String::from_str("RepeatMode"), Json::Str(String::from_str("RepeatNone"))));
        members.push(
            (String::from_str("PlaybackStartTimeTicks"), Json::Num(u64_to_dec(back.start_tick))),
        );
        members.push((String::from_str("SubtitleOffset"), Json::Num(String::from_str("0"))));
        members.push((String::from_str("PlaybackRate"), Json::Num(String::from_str("1"))));
        members.push((String::from_str("PositionTicks"), Json::Num(u64_to_dec(back.tick))));
        members.push((String::from_str("PlayMethod"), Json::Str(String::from_str("DirectStream"))));
        members.push((String::from_str("PlaySessionId"), Json::Str(back.playsessionid.clone())));
        members.push((String::from_str("MediaSourceId"), Json::Str(back.mediasourceid.clone())));
        members.push((String::from_str("PlaylistIndex"), Json::Num(String::from_str("0"))));
        members.push((String::from_str("PlaylistLength"), Json::Num(String::from_str("1"))));
        members.push((String::from_str("CanSeek"), Json::Bool(true)));
        members.push((String::from_str("ItemId"), Json::Str(back.id.clone())));
        members.push((String::from_str("Shuffle"), Json::Bool(false)));
        let body = Json::Obj(members);
        let r = self.post(path.as_str(), &params, &body);
        proof {
            lemma_member_views_index(body->Obj_0@);
            assert(view_of(body) matches JsonV::Obj(ms) && ms =~= position_back_body(
                *back,
            )->Obj_0);
            assert(params_view(params@) =~= seq![("reqformat"@, "json"@)]);
        }
        r
    }

    /// A direct-stream URL for handing to the media engine: built under the
    /// server root (not the API root), with the device, token and tag as
    /// query parameters. Pure string construction; no network call.
    pub fn get_direct_stream_url(
        &self,
        container: &str,
        media_source_id: &str,
        etag: &str,
    ) -> (r: String)
        requires
            self.url is Some,
            self.url->0.wf(),
        ensures
            r@ == self.url->0.parent_base_chars() + "Videos/"@ + media_source_id@ + "/stream."@
                + container@ + crate::query::query_suffix(
                seq![
                    ("Static"@, "true"@),
                    ("mediaSourceId"@, media_source_id@),
                    ("deviceId"@, self.device_id@),
                    ("api_key"@, self.user_access_token@),
                    ("Tag"@, etag@),
                ],
            ),
    {
        let u = match &self.url {
            Some(u) => u,
            None => {
                proof {
                    assert(false);
                }
                unreached()
            },
        };
        let mut r = u.parent_base_string();
        r.append("Videos/");
        r.append(media_source_id);
        r.append("/stream.");
        r.append(container);
        let mut params: Vec<(String, String)> = Vec::new();
        params.push(qp("Static", "true"));
        params.push(qp("mediaSourceId", media_source_id));
        params.push(qpo("deviceId", self.device_id.clone()));
        params.push(qpo("api_key", self.user_access_token.clone()));
        params.push(qp("Tag", etag));
        crate::query::append_query(&mut r, &params);
        assert(params_view(params@) =~= seq![
            ("Static"@, "true"@),
            ("mediaSourceId"@, media_source_id@),
            ("deviceId"@, self.device_id@),
            ("api_key"@, self.user_access_token@),
            ("Tag"@, etag@),
        ]);
        r
    }

    /// Resolves a server-relative path into a full streaming URL under the
    /// API root, dropping the path's leading slashes.
    pub fn get_streaming_url(&self, path: &str) -> (r: String)
        requires
            self.url is Some,
        ensures
            r@ == self.url->0.base_chars() + crate::text::trim_leading_slashes(path@),
    {
        let u = match &self.url {
            Some(u) => u,
            None => {
                proof {
                    assert(false);
                }
                unreached()
            },
        };
        let mut r = u.base_string();
        let trimmed = crate::text::trim_slashes(path);
        r.append(trimmed.as_str());
        r
    }

    /// The universal audio-streaming URL of a song, with the fixed
    /// container negotiation and the current identity baked in.
    pub fn get_song_streaming_uri(&self, id: &str) -> (r: String)
        requires
            self.url is Some,
        ensures
            r@ == self.url->0.base_chars() + "Audio/"@ + id@ + "/universal?UserId="@
                + self.user_id@ + "&DeviceId="@ + self.device_id@
                + "&MaxStreamingBitrate=4000000&Container=opus,mp3|mp3,mp2,mp3|mp2,m4a|aac,mp4|aac,flac,webma,webm,wav|PCM_S16LE,wav|PCM_S24LE,ogg&TranscodingContainer=aac&TranscodingProtocol=hls&AudioCodec=aac&api_key="@
                + self.user_access_token@
                + "&PlaySessionId=1715006733496&StartTimeTicks=0&EnableRedirection=true&EnableRemoteMedia=false"@,
    {
        let u = match &self.url {
            Some(u) => u,
            None => {
                proof {
                    assert(false);
                }
                unreached()
            },
        };
        let mut r = u.base_string();
        r.append("Audio/");
        r.append(id);
        r.append("/universal?UserId=");
        r.append(self.user_id.as_str());
        r.append("&DeviceId=");
        r.append(self.device_id.as_str());
        r.append(
            "&MaxStreamingBitrate=4000000&Container=opus,mp3|mp3,mp2,mp3|mp2,m4a|aac,mp4|aac,flac,webma,webm,wav|PCM_S16LE,wav|PCM_S24LE,ogg&TranscodingContainer=aac&TranscodingProtocol=hls&AudioCodec=aac&api_key=",
        );
        r.append(self.user_access_token.as_str());
        r.append(
            "&PlaySessionId=1715006733496&StartTimeTicks=0&EnableRedirection=true&EnableRemoteMedia=false",
        );
        r
    }

    /// The URL of one image of an item, optionally with an image index.
    pub fn get_image_path(&self, id: &str, image_type: &str, image_index: Option<u32>) -> (r:
        String)
        requires
            self.url is Some,
        ensures
            r@ == self.url->0.base_chars() + "Items/"@ + id@ + "/Images/"@ + image_type@ + "/"@
                + (match image_index {
                Some(x) => dec_chars(x as nat),
                None => Seq::<char>::empty(),
            }),
    {
        let u = match &self.url {
            Some(u) => u,
            None => {
                proof {
                    assert(false);
                }
                unreached()
            },
        };
        let mut r = u.base_string();
        r.append("Items/");
        r.append(id);
        r.append("/Images/");
        r.append(image_type);
        r.append("/");
        match image_index {
            Some(x) => {
                let d = u64_to_dec(x as u64);
                r.append(d.as_str());
            },
            None => {},
        }
        assert(r@ =~= self.url->0.base_chars() + "Items/"@ + id@ + "/Images/"@ + image_type@
            + "/"@ + (match image_index {
            Some(x) => dec_chars(x as nat),
            None => Seq::<char>::empty(),
        }));
        r
    }
}

} // verus!
