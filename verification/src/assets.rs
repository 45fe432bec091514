//! The static asset registry: a table from URL paths to assets, built and
//! checked once when the process starts and only read afterwards.

use crate::etag::{etag_text, hash};
use crate::headers::{
    header_value, header_value_ok, insert_header, is_header_value,
    lemma_plain_text_is_header_value, new_header_map, no_headers, static_header_name,
};
use crate::response::{Response, ResponseView};
use crate::text::str_equal;
use vstd::prelude::*;
use vstd::slice::slice_to_vec;
use vstd::utf8::encode_utf8;

verus! {

/// One static asset: where it is served, what it holds, what kind of content
/// that is, and the entity tag of the content.
pub struct StaticAsset {
    pub url_path: String,
    pub content: Vec<u8>,
    pub content_type: String,
    pub content_hash: String,
}

/// The mathematical value of a [`StaticAsset`].
pub struct StaticAssetView {
    pub url_path: Seq<char>,
    pub content: Seq<u8>,
    pub content_type: Seq<char>,
    pub content_hash: Seq<char>,
}

impl View for StaticAsset {
    type V = StaticAssetView;

    open spec fn view(&self) -> StaticAssetView {
        StaticAssetView {
            url_path: self.url_path@,
            content: self.content@,
            content_type: self.content_type@,
            content_hash: self.content_hash@,
        }
    }
}

/// The values of a run of assets, in order.
pub open spec fn assets_view(assets: Seq<StaticAsset>) -> Seq<StaticAssetView> {
    Seq::new(assets.len(), |i: int| assets[i]@)
}

/// Whether no two assets are served at the same path.
pub open spec fn distinct_paths(assets: Seq<StaticAssetView>) -> bool {
    forall|i: int, j: int|
        0 <= i < j < assets.len() ==> (#[trigger] assets[i]).url_path != (
        #[trigger] assets[j]).url_path
}

/// Whether every asset's content type can stand in a header.
pub open spec fn servable_types(assets: Seq<StaticAssetView>) -> bool {
    forall|i: int|
        0 <= i < assets.len() ==> header_value_ok(encode_utf8((#[trigger] assets[i]).content_type))
}

/// The first asset that is served at `path`, if there is one.
pub open spec fn lookup(assets: Seq<StaticAssetView>, path: Seq<char>) -> Option<StaticAssetView>
    decreases assets.len(),
{
    if assets.len() == 0 {
        None
    } else if assets[0].url_path == path {
        Some(assets[0])
    } else {
        lookup(assets.drop_first(), path)
    }
}

/// Why a table of assets was refused.
#[derive(Clone, Copy, Debug, PartialEq, Eq, Structural)]
pub enum RegistryError {
    /// Two assets are served at the same path.
    DuplicatePath,
    /// An asset's content type cannot stand in a header.
    InvalidContentType,
}

/// The registry of static assets.
pub struct StaticFiles {
    assets: Vec<StaticAsset>,
}

impl View for StaticFiles {
    type V = Seq<StaticAssetView>;

    closed spec fn view(&self) -> Seq<StaticAssetView> {
        assets_view(self.assets@)
    }
}

/// How long and by whom an asset may be cached: a week, by anyone, without
/// asking again.
pub open spec fn asset_cache_control() -> Seq<char> {
    "public, max-age=604800, immutable"@
}

/// The headers of every answer to an asset request.
pub open spec fn asset_headers(content_type: Seq<char>) -> Map<Seq<char>, Seq<Seq<u8>>> {
    no_headers().insert("content-type"@, seq![encode_utf8(content_type)]).insert(
        "cache-control"@,
        seq![encode_utf8(asset_cache_control())],
    )
}

/// The answer to a request for the asset at `path`: the asset with its
/// content type where there is one, and a 404 page where there is none.
pub open spec fn asset_response_view(assets: Seq<StaticAssetView>, path: Seq<char>) -> ResponseView {
    match lookup(assets, path) {
        Some(asset) => ResponseView {
            status: 200,
            headers: asset_headers(asset.content_type),
            body: asset.content,
        },
        None => ResponseView {
            status: 404,
            headers: asset_headers("text/html; charset=utf-8"@),
            body: encode_utf8("not found"@),
        },
    }
}

impl StaticAsset {
    /// The asset served at `url_path` with this content and content type.
    /// Its hash is the entity tag of the content.
    pub fn new(url_path: &str, content: Vec<u8>, content_type: &str) -> (asset: StaticAsset)
        ensures
            asset@ == (StaticAssetView {
                url_path: url_path@,
                content: content@,
                content_type: content_type@,
                content_hash: etag_text(content@),
            }),
    {
        let content_hash = hash(content.as_slice());
        StaticAsset {
            url_path: String::from_str(url_path),
            content,
            content_type: String::from_str(content_type),
            content_hash,
        }
    }
}

/// Whether an asset before position `upto` is served at `path`.
fn path_taken(assets: &Vec<StaticAsset>, upto: usize, path: &String) -> (taken: bool)
    requires
        upto <= assets.len(),
    ensures
        taken == exists|i: int| 0 <= i < upto && (#[trigger] assets@[i]).url_path@ == path@,
{
    for k in 0..upto
        invariant
            upto <= assets.len(),
            forall|i: int| 0 <= i < k ==> (#[trigger] assets@[i]).url_path@ != path@,
    {
        if assets[k].url_path == *path {
            return true;
        }
    }
    false
}

impl StaticFiles {
    /// Whether the table is sound: no path twice, every content type fit for
    /// a header. Every registry that [`StaticFiles::build`] hands out is.
    pub open spec fn wf(&self) -> bool {
        distinct_paths(self@) && servable_types(self@)
    }

    /// Checks a table of assets and makes the registry of it.
    ///
    /// A table with two assets at one path is refused; so is one with a
    /// content type that cannot stand in a header. The first is reported
    /// where both hold.
    pub fn build(assets: Vec<StaticAsset>) -> (r: Result<StaticFiles, RegistryError>)
        ensures
            match r {
                Ok(files) => files@ == assets_view(assets@) && files.wf(),
                Err(RegistryError::DuplicatePath) => !distinct_paths(assets_view(assets@)),
                Err(RegistryError::InvalidContentType) => distinct_paths(assets_view(assets@))
                    && !servable_types(assets_view(assets@)),
            },
    {
        let ghost views = assets_view(assets@);
        for j in 0..assets.len()
            invariant
                views == assets_view(assets@),
                forall|a: int, b: int|
                    0 <= a < b < j ==> (#[trigger] views[a]).url_path != (
                    #[trigger] views[b]).url_path,
        {
            if path_taken(&assets, j, &assets[j].url_path) {
                proof {
                    let i = choose|i: int|
                        0 <= i < j && (#[trigger] assets@[i]).url_path@ == assets@[j as int].url_path@;
                    assert(views[i].url_path == views[j as int].url_path);
                }
                return Err(RegistryError::DuplicatePath);
            }
            proof {
                assert forall|a: int, b: int| 0 <= a < b < j + 1 implies (#[trigger] views[a]).url_path
                    != (#[trigger] views[b]).url_path by {
                    if b == j {
                        assert(assets@[a].url_path@ != assets@[j as int].url_path@);
                    }
                }
            }
        }
        assert(distinct_paths(views));
        for j in 0..assets.len()
            invariant
                views == assets_view(assets@),
                distinct_paths(views),
                forall|a: int|
                    0 <= a < j ==> header_value_ok(encode_utf8((#[trigger] views[a]).content_type)),
        {
            if !is_header_value(assets[j].content_type.as_str()) {
                proof {
                    assert(!header_value_ok(encode_utf8(views[j as int].content_type)));
                }
                return Err(RegistryError::InvalidContentType);
            }
        }
        Ok(StaticFiles { assets })
    }

    /// The asset that is served at `path`, if there is one. Absence is an
    /// ordinary outcome, not an error.
    pub fn lookup(&self, path: &str) -> (found: Option<&StaticAsset>)
        ensures
            match found {
                Some(asset) => lookup(self@, path@) == Some(asset@),
                None => lookup(self@, path@) is None,
            },
    {
        let ghost views = self@;
        let n = self.assets.len();
        let mut k: usize = 0;
        assert(views.skip(0) =~= views);
        while k < n
            invariant
                n == self.assets.len(),
                views == assets_view(self.assets@),
                k <= n,
                lookup(views, path@) == lookup(views.skip(k as int), path@),
            decreases n - k,
        {
            let asset = &self.assets[k];
            proof {
                assert(views.skip(k as int)[0] == views[k as int]);
                assert(views.skip(k as int).drop_first() =~= views.skip(k + 1));
            }
            if str_equal(asset.url_path.as_str(), path) {
                return Some(asset);
            }
            k = k + 1;
        }
        assert(views.skip(n as int).len() == 0);
        None
    }

    /// The number of assets.
    pub fn len(&self) -> (n: usize)
        ensures
            n == self@.len(),
    {
        self.assets.len()
    }
}

/// The answer to a request for the asset at `path`.
///
/// An asset that is there is sent with status 200 and its content type; a
/// path without an asset gets status 404 and a short HTML body. Either way
/// the answer may be cached for a week.
pub fn static_file_response(files: &StaticFiles, path: &str) -> (response: Response)
    requires
        files.wf(),
    ensures
        response@ == asset_response_view(files@, path@),
{
    let mut headers = new_header_map();
    proof {
        reveal_strlit("content-type");
        reveal_strlit("cache-control");
        reveal_strlit("public, max-age=604800, immutable");
        reveal_strlit("text/html; charset=utf-8");
        lemma_plain_text_is_header_value("public, max-age=604800, immutable"@);
        lemma_plain_text_is_header_value("text/html; charset=utf-8"@);
    }
    match files.lookup(path) {
        Some(asset) => {
            proof {
                lemma_lookup_is_member(files@, path@);
            }
            insert_header(
                &mut headers,
                static_header_name("content-type"),
                header_value(asset.content_type.as_str()),
            );
            insert_header(
                &mut headers,
                static_header_name("cache-control"),
                header_value("public, max-age=604800, immutable"),
            );
            Response { status: 200, headers, body: slice_to_vec(asset.content.as_slice()) }
        },
        None => {
            insert_header(
                &mut headers,
                static_header_name("content-type"),
                header_value("text/html; charset=utf-8"),
            );
            insert_header(
                &mut headers,
                static_header_name("cache-control"),
                header_value("public, max-age=604800, immutable"),
            );
            Response { status: 404, headers, body: slice_to_vec("not found".as_bytes()) }
        },
    }
}

/// What a lookup finds is an asset of the table, and it is served at the
/// path that was asked for.
pub proof fn lemma_lookup_is_member(assets: Seq<StaticAssetView>, path: Seq<char>)
    ensures
        lookup(assets, path) matches Some(asset) ==> asset.url_path == path && exists|i: int|
            0 <= i < assets.len() && assets[i] == asset,
        lookup(assets, path) is None ==> forall|i: int|
            0 <= i < assets.len() ==> (#[trigger] assets[i]).url_path != path,
    decreases assets.len(),
{
    if assets.len() > 0 && assets[0].url_path != path {
        let rest = assets.drop_first();
        lemma_lookup_is_member(rest, path);
        if lookup(rest, path) is Some {
            let asset = lookup(rest, path)->0;
            let i = choose|i: int| 0 <= i < rest.len() && rest[i] == asset;
            assert(assets[i + 1] == asset);
        } else {
            assert forall|i: int| 0 <= i < assets.len() implies (#[trigger] assets[i]).url_path
                != path by {
                if i > 0 {
                    assert(rest[i - 1] == assets[i]);
                }
            }
        }
    }
}

/// In a table without a path twice, every asset is found at its own path.
pub proof fn lemma_registered_is_found(assets: Seq<StaticAssetView>, i: int)
    requires
        distinct_paths(assets),
        0 <= i < assets.len(),
    ensures
        lookup(assets, assets[i].url_path) == Some(assets[i]),
    decreases assets.len(),
{
    if i > 0 {
        let rest = assets.drop_first();
        assert(distinct_paths(rest)) by {
            assert forall|a: int, b: int| 0 <= a < b < rest.len() implies (#[trigger] rest[a]).url_path
                != (#[trigger] rest[b]).url_path by {
                assert(rest[a] == assets[a + 1]);
                assert(rest[b] == assets[b + 1]);
            }
        }
        assert(rest[i - 1] == assets[i]);
        lemma_registered_is_found(rest, i - 1);
        assert(assets[0].url_path != assets[i].url_path);
    }
}

} // verus!
