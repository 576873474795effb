//! The endpoints of the policy store.

use vstd::prelude::*;
use vstd::string::*;
use crate::decimal::{decimal, lemma_decimal_is_segment, to_decimal};
use crate::endpoint::EndpointPath;
use crate::segment::texts;
use crate::method::Method;
use crate::template::{
    accepts, arity, fill, instantiate, join, lead, lemma_segments_join, placeholders, segments,
};

verus! {

/// The segments of the template under which all versions are found; none is
/// a placeholder.
pub proof fn lemma_policies_template()
    ensures
        segments("/v2/policies"@) == seq![Seq::<char>::empty(), "v2"@, "policies"@],
        arity("/v2/policies"@) == 0,
{
    reveal_strlit("/v2/policies");
    reveal_strlit("v2");
    reveal_strlit("policies");
    let segs = seq![Seq::<char>::empty(), "v2"@, "policies"@];
    reveal_with_fuel(lead, 4);
    reveal_with_fuel(placeholders, 4);
    assert(join(segs) =~= "/v2/policies"@);
    lemma_segments_join(segs);
}

/// The segments of the template of the active version; none is a
/// placeholder.
pub proof fn lemma_active_template()
    ensures
        segments("/v2/policies/active"@) == seq![
            Seq::<char>::empty(),
            "v2"@,
            "policies"@,
            "active"@,
        ],
        arity("/v2/policies/active"@) == 0,
{
    reveal_strlit("/v2/policies/active");
    reveal_strlit("v2");
    reveal_strlit("policies");
    reveal_strlit("active");
    let segs = seq![Seq::<char>::empty(), "v2"@, "policies"@, "active"@];
    reveal_with_fuel(lead, 5);
    reveal_with_fuel(placeholders, 5);
    assert(join(segs) =~= "/v2/policies/active"@);
    lemma_segments_join(segs);
}

/// The segments of the template of the active version's activator; none is
/// a placeholder.
pub proof fn lemma_activator_template()
    ensures
        segments("/v2/policies/active/activator"@) == seq![
            Seq::<char>::empty(),
            "v2"@,
            "policies"@,
            "active"@,
            "activator"@,
        ],
        arity("/v2/policies/active/activator"@) == 0,
{
    reveal_strlit("/v2/policies/active/activator");
    reveal_strlit("v2");
    reveal_strlit("policies");
    reveal_strlit("active");
    reveal_strlit("activator");
    let segs = seq![Seq::<char>::empty(), "v2"@, "policies"@, "active"@, "activator"@];
    reveal_with_fuel(lead, 6);
    reveal_with_fuel(placeholders, 6);
    assert(join(segs) =~= "/v2/policies/active/activator"@);
    lemma_segments_join(segs);
}

/// The segments of the template of a version's metadata: the last one is
/// its one placeholder.
pub proof fn lemma_version_metadata_template()
    ensures
        segments("/v2/policies/:version"@) == seq![
            Seq::<char>::empty(),
            "v2"@,
            "policies"@,
            ":version"@,
        ],
        arity("/v2/policies/:version"@) == 1,
{
    reveal_strlit("/v2/policies/:version");
    reveal_strlit("v2");
    reveal_strlit("policies");
    reveal_strlit(":version");
    let segs = seq![Seq::<char>::empty(), "v2"@, "policies"@, ":version"@];
    reveal_with_fuel(lead, 5);
    reveal_with_fuel(placeholders, 5);
    assert(join(segs) =~= "/v2/policies/:version"@);
    lemma_segments_join(segs);
}

/// The segments of the template of a version's content: the last but one is
/// its one placeholder.
pub proof fn lemma_version_content_template()
    ensures
        segments("/v2/policies/:version/content"@) == seq![
            Seq::<char>::empty(),
            "v2"@,
            "policies"@,
            ":version"@,
            "content"@,
        ],
        arity("/v2/policies/:version/content"@) == 1,
{
    reveal_strlit("/v2/policies/:version/content");
    reveal_strlit("v2");
    reveal_strlit("policies");
    reveal_strlit(":version");
    reveal_strlit("content");
    let segs = seq![Seq::<char>::empty(), "v2"@, "policies"@, ":version"@, "content"@];
    reveal_with_fuel(lead, 6);
    reveal_with_fuel(placeholders, 6);
    assert(join(segs) =~= "/v2/policies/:version/content"@);
    lemma_segments_join(segs);
}

/// Where a new policy version is added.
pub fn add_version_path() -> (route: EndpointPath)
    ensures
        route.method == Method::Post,
        route.path@ == "/v2/policies"@,
        arity(route.path@) == 0,
{
    proof {
        lemma_policies_template();
    }
    EndpointPath { method: Method::Post, path: "/v2/policies" }
}

/// Where a version that was added before is activated.
pub fn activate_path() -> (route: EndpointPath)
    ensures
        route.method == Method::Put,
        route.path@ == "/v2/policies/active"@,
        arity(route.path@) == 0,
{
    proof {
        lemma_active_template();
    }
    EndpointPath { method: Method::Put, path: "/v2/policies/active" }
}

/// Where the active version, if any, is deactivated.
pub fn deactivate_path() -> (route: EndpointPath)
    ensures
        route.method == Method::Delete,
        route.path@ == "/v2/policies/active"@,
        arity(route.path@) == 0,
{
    proof {
        lemma_active_template();
    }
    EndpointPath { method: Method::Delete, path: "/v2/policies/active" }
}

/// Where the metadata of all versions is listed.
pub fn get_versions_path() -> (route: EndpointPath)
    ensures
        route.method == Method::Get,
        route.path@ == "/v2/policies"@,
        arity(route.path@) == 0,
{
    proof {
        lemma_policies_template();
    }
    EndpointPath { method: Method::Get, path: "/v2/policies" }
}

/// Where the active version, if any, is told.
pub fn get_active_version_path() -> (route: EndpointPath)
    ensures
        route.method == Method::Get,
        route.path@ == "/v2/policies/active"@,
        arity(route.path@) == 0,
{
    proof {
        lemma_active_template();
    }
    EndpointPath { method: Method::Get, path: "/v2/policies/active" }
}

/// Where the user who activated the active version, if any, is told.
pub fn get_activator_version_path() -> (route: EndpointPath)
    ensures
        route.method == Method::Get,
        route.path@ == "/v2/policies/active/activator"@,
        arity(route.path@) == 0,
{
    proof {
        lemma_activator_template();
    }
    EndpointPath { method: Method::Get, path: "/v2/policies/active/activator" }
}

/// Where the metadata of one version is fetched; the placeholder takes the
/// version's number in decimal.
pub fn get_version_metadata_path() -> (route: EndpointPath)
    ensures
        route.method == Method::Get,
        route.path@ == "/v2/policies/:version"@,
        arity(route.path@) == 1,
{
    proof {
        lemma_version_metadata_template();
    }
    EndpointPath { method: Method::Get, path: "/v2/policies/:version" }
}

/// Where the content of one version is fetched; the placeholder takes the
/// version's number in decimal.
pub fn get_version_content_path() -> (route: EndpointPath)
    ensures
        route.method == Method::Get,
        route.path@ == "/v2/policies/:version/content"@,
        arity(route.path@) == 1,
{
    proof {
        lemma_version_content_template();
    }
    EndpointPath { method: Method::Get, path: "/v2/policies/:version/content" }
}

/// The path of the metadata of the given version.
pub fn version_metadata_path(version: u64) -> (path: String)
    ensures
        path@ == instantiate("/v2/policies/:version"@, seq![decimal(version as nat)]),
        path@ == "/v2/policies/"@ + decimal(version as nat),
{
    let route = get_version_metadata_path();
    let mut args: Vec<String> = Vec::new();
    args.push(to_decimal(version));
    proof {
        let number = decimal(version as nat);
        let given = texts(args@);
        assert(given =~= seq![number]);
        lemma_decimal_is_segment(version as nat);
        lemma_version_metadata_template();
        assert(accepts(route.path@, given));
        reveal_strlit("/v2/policies/");
        reveal_strlit("v2");
        reveal_strlit("policies");
        reveal_strlit(":version");
        let segs = segments(route.path@);
        reveal_with_fuel(lead, 5);
        reveal_with_fuel(placeholders, 5);
        assert(segs.take(3) =~= seq![Seq::<char>::empty(), "v2"@, "policies"@]);
        assert(fill(segs, given) =~= seq![Seq::<char>::empty(), "v2"@, "policies"@, number]);
        assert(join(fill(segs, given)) =~= "/v2/policies/"@ + number);
    }
    route.instantiated_path(&args)
}

/// The path of the content of the given version.
pub fn version_content_path(version: u64) -> (path: String)
    ensures
        path@ == instantiate("/v2/policies/:version/content"@, seq![decimal(version as nat)]),
        path@ == "/v2/policies/"@ + decimal(version as nat) + "/content"@,
{
    let route = get_version_content_path();
    let mut args: Vec<String> = Vec::new();
    args.push(to_decimal(version));
    proof {
        let number = decimal(version as nat);
        let given = texts(args@);
        assert(given =~= seq![number]);
        lemma_decimal_is_segment(version as nat);
        lemma_version_content_template();
        assert(accepts(route.path@, given));
        reveal_strlit("/v2/policies/");
        reveal_strlit("/content");
        reveal_strlit("v2");
        reveal_strlit("policies");
        reveal_strlit(":version");
        reveal_strlit("content");
        let segs = segments(route.path@);
        reveal_with_fuel(lead, 6);
        reveal_with_fuel(placeholders, 6);
        assert(segs.take(3) =~= seq![Seq::<char>::empty(), "v2"@, "policies"@]);
        assert(fill(segs, given) =~= seq![
            Seq::<char>::empty(),
            "v2"@,
            "policies"@,
            number,
            "content"@,
        ]);
        assert(join(fill(segs, given)) =~= "/v2/policies/"@ + number + "/content"@);
    }
    route.instantiated_path(&args)
}

} // verus!
