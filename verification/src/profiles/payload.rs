//! The documents that fingerprints of profiles are taken of.

use vstd::prelude::*;
use crate::json::{
    json_object, json_opt, json_str, json_strs, json_view, opt_str, str_array, Json, JsonView,
};
use crate::profiles::model::{
    LoadedProfilesRegistry, LoadedProfilesRegistryView, ProfileProvenanceEntry,
    ProfileProvenanceEntryView, ProfileScope,
};
use crate::strmap::StrMap;
use crate::text::Duplicate;
use crate::types::config::{PolicyConfig, PolicyConfigView};
use crate::types::profile::{
    GuidelineProfileV1, GuidelineProfileV1View, PolicyProfilePatchV1, PolicyProfilePatchV1View,
    PolicyProfileV1, PolicyProfileV1View, ProfileRefs, ProfileRefsView,
};

verus! {

/// Something that is written as a document.
pub trait ToJson: DeepView + Sized {
    /// The document of a value.
    spec fn document(v: Self::V) -> JsonView;

    fn to_json(&self) -> (r: Json)
        ensures
            r@ == Self::document(self.deep_view()),
    ;
}

/// The documents of values, in order.
pub open spec fn documents<T: ToJson>(s: Seq<T::V>) -> JsonView {
    JsonView::Arr(s.map_values(|v: T::V| T::document(v)))
}

pub fn json_list<T: ToJson>(v: &Vec<T>) -> (r: Json)
    ensures
        r@ == documents::<T>(v.deep_view()),
{
    let mut out: Vec<Json> = Vec::new();
    let mut i: usize = 0;
    while i < v.len()
        invariant
            i <= v.len(),
            out.len() == i,
            forall|k: int|
                0 <= k < i ==> json_view(#[trigger] out@[k]) == T::document(v@[k].deep_view()),
        decreases v.len() - i,
    {
        out.push(v[i].to_json());
        i = i + 1;
    }
    let r = Json::Arr(out);
    assert(r@->Arr_0 =~= documents::<T>(v.deep_view())->Arr_0);
    r
}

/// The document of a map: an object, in key order.
pub open spec fn map_document<T: ToJson>(s: Seq<(Seq<char>, T::V)>) -> JsonView {
    JsonView::Obj(s.map_values(|e: (Seq<char>, T::V)| (e.0, T::document(e.1))))
}

pub fn json_map<T: ToJson>(m: &StrMap<T>) -> (r: Json)
    ensures
        r@ == map_document::<T>(m@),
{
    let mut out: Vec<(String, Json)> = Vec::new();
    let mut i: usize = 0;
    while i < m.len()
        invariant
            i <= m@.len(),
            out.len() == i,
            forall|k: int|
                0 <= k < i ==> (#[trigger] out@[k]).0@ == m@[k].0 && out@[k].1@ == T::document(
                    m@[k].1,
                ),
        decreases m@.len() - i,
    {
        out.push((m.key_at(i).clone(), m.value_at(i).to_json()));
        i = i + 1;
    }
    let r = json_object(out);
    assert(r@->Obj_0 =~= map_document::<T>(m@)->Obj_0);
    r
}

impl ToJson for Vec<String> {
    open spec fn document(v: Seq<Seq<char>>) -> JsonView {
        str_array(v)
    }

    fn to_json(&self) -> (r: Json) {
        json_strs(self)
    }
}

impl ToJson for bool {
    open spec fn document(v: bool) -> JsonView {
        JsonView::Bool(v)
    }

    fn to_json(&self) -> (r: Json) {
        Json::Bool(*self)
    }
}

impl ToJson for u64 {
    open spec fn document(v: u64) -> JsonView {
        JsonView::UInt(v)
    }

    fn to_json(&self) -> (r: Json) {
        Json::UInt(*self)
    }
}

/// The document of an optional value: the value's, or null.
pub open spec fn opt_document<T: ToJson>(o: Option<T::V>) -> JsonView {
    match o {
        Some(v) => T::document(v),
        None => JsonView::Null,
    }
}

pub fn json_option<T: ToJson>(o: &Option<T>) -> (r: Json)
    ensures
        r@ == opt_document::<T>(o.deep_view()),
{
    match o {
        Some(v) => v.to_json(),
        None => Json::Null,
    }
}

/// The name of a scope.
pub open spec fn scope_name(s: ProfileScope) -> Seq<char> {
    match s {
        ProfileScope::Global => "global"@,
        ProfileScope::Project => "project"@,
    }
}

impl ToJson for ProfileScope {
    open spec fn document(v: ProfileScope) -> JsonView {
        JsonView::Str(scope_name(v))
    }

    fn to_json(&self) -> (r: Json) {
        match self {
            ProfileScope::Global => json_str("global"),
            ProfileScope::Project => json_str("project"),
        }
    }
}

impl ToJson for ProfileRefs {
    open spec fn document(v: ProfileRefsView) -> JsonView {
        JsonView::Obj(
            seq![
                ("guideline_profiles"@, str_array(v.guideline_profiles)),
                ("policy_profiles"@, str_array(v.policy_profiles)),
            ],
        )
    }

    fn to_json(&self) -> (r: Json) {
        let r = json_object(
            vec![
                ("guideline_profiles".to_owned(), json_strs(&self.guideline_profiles)),
                ("policy_profiles".to_owned(), json_strs(&self.policy_profiles)),
            ],
        );
        assert(r@->Obj_0 =~= Self::document(self@)->Obj_0);
        r
    }
}

impl ToJson for PolicyConfig {
    open spec fn document(v: PolicyConfigView) -> JsonView {
        JsonView::Obj(
            seq![
                ("deny_dangerous_always"@, JsonView::Bool(v.deny_dangerous_always)),
                ("enabled"@, JsonView::Bool(v.enabled)),
                (
                    "verify"@,
                    JsonView::Obj(
                        seq![
                            (
                                "command_prefixes"@,
                                documents::<Vec<String>>(v.verify.command_prefixes),
                            ),
                            ("max_age_ms"@, JsonView::UInt(v.verify.max_age_ms)),
                            ("required"@, JsonView::Bool(v.verify.required)),
                        ],
                    ),
                ),
            ],
        )
    }

    fn to_json(&self) -> (r: Json) {
        let verify = json_object(
            vec![
                ("command_prefixes".to_owned(), json_list(&self.verify.command_prefixes)),
                ("max_age_ms".to_owned(), Json::UInt(self.verify.max_age_ms)),
                ("required".to_owned(), Json::Bool(self.verify.required)),
            ],
        );
        assert(verify@->Obj_0 =~= Self::document(self@)->Obj_0[2].1->Obj_0);
        let r = json_object(
            vec![
                ("deny_dangerous_always".to_owned(), Json::Bool(self.deny_dangerous_always)),
                ("enabled".to_owned(), Json::Bool(self.enabled)),
                ("verify".to_owned(), verify),
            ],
        );
        assert(r@->Obj_0 =~= Self::document(self@)->Obj_0);
        r
    }
}

impl ToJson for ProfileProvenanceEntry {
    open spec fn document(v: ProfileProvenanceEntryView) -> JsonView {
        JsonView::Obj(
            seq![
                ("profile_id"@, JsonView::Str(v.profile_id)),
                ("profile_type"@, JsonView::Str(v.profile_type)),
                ("scope"@, JsonView::Str(scope_name(v.scope))),
            ],
        )
    }

    fn to_json(&self) -> (r: Json) {
        let r = json_object(
            vec![
                ("profile_id".to_owned(), json_str(self.profile_id.as_str())),
                ("profile_type".to_owned(), json_str(self.profile_type.as_str())),
                ("scope".to_owned(), self.scope.to_json()),
            ],
        );
        assert(r@->Obj_0 =~= Self::document(self@)->Obj_0);
        r
    }
}

impl ToJson for PolicyProfilePatchV1 {
    open spec fn document(v: PolicyProfilePatchV1View) -> JsonView {
        JsonView::Obj(
            seq![
                ("deny_dangerous_always"@, opt_document::<bool>(v.deny_dangerous_always)),
                ("enabled"@, opt_document::<bool>(v.enabled)),
                (
                    "verify_command_prefixes_add"@,
                    documents::<Vec<String>>(v.verify_command_prefixes_add),
                ),
                ("verify_max_age_ms"@, opt_document::<u64>(v.verify_max_age_ms)),
                ("verify_required"@, opt_document::<bool>(v.verify_required)),
            ],
        )
    }

    fn to_json(&self) -> (r: Json) {
        let r = json_object(
            vec![
                ("deny_dangerous_always".to_owned(), json_option(&self.deny_dangerous_always)),
                ("enabled".to_owned(), json_option(&self.enabled)),
                (
                    "verify_command_prefixes_add".to_owned(),
                    json_list(&self.verify_command_prefixes_add),
                ),
                ("verify_max_age_ms".to_owned(), json_option(&self.verify_max_age_ms)),
                ("verify_required".to_owned(), json_option(&self.verify_required)),
            ],
        );
        assert(r@->Obj_0 =~= Self::document(self@)->Obj_0);
        r
    }
}

impl ToJson for PolicyProfileV1 {
    open spec fn document(v: PolicyProfileV1View) -> JsonView {
        JsonView::Obj(
            seq![
                ("description"@, opt_str(v.description)),
                ("includes"@, str_array(v.includes)),
                ("patch"@, PolicyProfilePatchV1::document(v.patch)),
            ],
        )
    }

    fn to_json(&self) -> (r: Json) {
        let r = json_object(
            vec![
                ("description".to_owned(), json_opt(&self.description)),
                ("includes".to_owned(), json_strs(&self.includes)),
                ("patch".to_owned(), self.patch.to_json()),
            ],
        );
        assert(r@->Obj_0 =~= Self::document(self@)->Obj_0);
        r
    }
}

impl ToJson for GuidelineProfileV1 {
    open spec fn document(v: GuidelineProfileV1View) -> JsonView {
        JsonView::Obj(
            seq![
                ("description"@, opt_str(v.description)),
                ("includes"@, str_array(v.includes)),
                ("instructions"@, str_array(v.instructions)),
            ],
        )
    }

    fn to_json(&self) -> (r: Json) {
        let r = json_object(
            vec![
                ("description".to_owned(), json_opt(&self.description)),
                ("includes".to_owned(), json_strs(&self.includes)),
                ("instructions".to_owned(), json_strs(&self.instructions)),
            ],
        );
        assert(r@->Obj_0 =~= Self::document(self@)->Obj_0);
        r
    }
}

impl ToJson for LoadedProfilesRegistry {
    open spec fn document(v: LoadedProfilesRegistryView) -> JsonView {
        JsonView::Obj(
            seq![
                ("guideline_profiles"@, map_document::<GuidelineProfileV1>(v.guideline_profiles)),
                ("guideline_scope"@, map_document::<ProfileScope>(v.guideline_scope)),
                ("policy_profiles"@, map_document::<PolicyProfileV1>(v.policy_profiles)),
                ("policy_scope"@, map_document::<ProfileScope>(v.policy_scope)),
                ("warnings"@, str_array(v.warnings)),
            ],
        )
    }

    fn to_json(&self) -> (r: Json) {
        let r = json_object(
            vec![
                ("guideline_profiles".to_owned(), json_map(&self.guideline_profiles)),
                ("guideline_scope".to_owned(), json_map(&self.guideline_scope)),
                ("policy_profiles".to_owned(), json_map(&self.policy_profiles)),
                ("policy_scope".to_owned(), json_map(&self.policy_scope)),
                ("warnings".to_owned(), json_strs(&self.warnings)),
            ],
        );
        assert(r@->Obj_0 =~= Self::document(self@)->Obj_0);
        r
    }
}

/// The document that the fingerprint of a resolution is taken of.
pub open spec fn resolution_document(
    policy: PolicyConfigView,
    guidelines: Seq<Seq<char>>,
    provenance: Seq<ProfileProvenanceEntryView>,
    warnings: Seq<Seq<char>>,
    refs: ProfileRefsView,
) -> JsonView {
    JsonView::Obj(
        seq![
            ("effective_policy"@, PolicyConfig::document(policy)),
            ("guidelines"@, str_array(guidelines)),
            ("provenance"@, documents::<ProfileProvenanceEntry>(provenance)),
            ("requested_refs"@, ProfileRefs::document(refs)),
            ("warnings"@, str_array(warnings)),
        ],
    )
}

pub fn resolution_json(
    policy: &PolicyConfig,
    guidelines: &Vec<String>,
    provenance: &Vec<ProfileProvenanceEntry>,
    warnings: &Vec<String>,
    refs: &ProfileRefs,
) -> (r: Json)
    ensures
        r@ == resolution_document(
            policy@,
            guidelines.deep_view(),
            provenance.deep_view(),
            warnings.deep_view(),
            refs@,
        ),
{
    let r = json_object(
        vec![
            ("effective_policy".to_owned(), policy.to_json()),
            ("guidelines".to_owned(), json_strs(guidelines)),
            ("provenance".to_owned(), json_list(provenance)),
            ("requested_refs".to_owned(), refs.to_json()),
            ("warnings".to_owned(), json_strs(warnings)),
        ],
    );
    assert(r@->Obj_0 =~= resolution_document(
        policy@,
        guidelines.deep_view(),
        provenance.deep_view(),
        warnings.deep_view(),
        refs@,
    )->Obj_0);
    r
}

/// The document that the key of a cached resolution is taken of.
pub open spec fn request_document(
    registry_fingerprint: Seq<char>,
    refs: ProfileRefsView,
    base_policy: PolicyConfigView,
    policy_floor: PolicyConfigView,
) -> JsonView {
    JsonView::Obj(
        seq![
            ("base_policy"@, PolicyConfig::document(base_policy)),
            ("policy_floor"@, PolicyConfig::document(policy_floor)),
            ("refs"@, ProfileRefs::document(refs)),
            ("registry_fingerprint"@, JsonView::Str(registry_fingerprint)),
        ],
    )
}

pub fn request_json(
    registry_fingerprint: &str,
    refs: &ProfileRefs,
    base_policy: &PolicyConfig,
    policy_floor: &PolicyConfig,
) -> (r: Json)
    ensures
        r@ == request_document(registry_fingerprint@, refs@, base_policy@, policy_floor@),
{
    let r = json_object(
        vec![
            ("base_policy".to_owned(), base_policy.to_json()),
            ("policy_floor".to_owned(), policy_floor.to_json()),
            ("refs".to_owned(), refs.to_json()),
            ("registry_fingerprint".to_owned(), json_str(registry_fingerprint)),
        ],
    );
    assert(r@->Obj_0 =~= request_document(
        registry_fingerprint@,
        refs@,
        base_policy@,
        policy_floor@,
    )->Obj_0);
    r
}

/// Different lists of texts have different documents.
pub proof fn str_arrays_differ(a: Seq<Seq<char>>, b: Seq<Seq<char>>)
    requires
        str_array(a) == str_array(b),
    ensures
        a == b,
{
    let x = str_array(a)->Arr_0;
    let y = str_array(b)->Arr_0;
    assert(x.len() == a.len() && y.len() == b.len());
    assert forall|i: int| 0 <= i < a.len() implies a[i] == b[i] by {
        assert(x[i] == JsonView::Str(a[i]));
        assert(y[i] == JsonView::Str(b[i]));
    }
    assert(a =~= b);
}

proof fn prefix_lists_differ(a: Seq<Seq<Seq<char>>>, b: Seq<Seq<Seq<char>>>)
    requires
        documents::<Vec<String>>(a) == documents::<Vec<String>>(b),
    ensures
        a == b,
{
    let x = documents::<Vec<String>>(a)->Arr_0;
    let y = documents::<Vec<String>>(b)->Arr_0;
    assert(x.len() == a.len() && y.len() == b.len());
    assert forall|i: int| 0 <= i < a.len() implies a[i] == b[i] by {
        assert(x[i] == str_array(a[i]));
        assert(y[i] == str_array(b[i]));
        str_arrays_differ(a[i], b[i]);
    }
    assert(a =~= b);
}

/// Different policies have different documents.
pub proof fn policy_documents_differ(a: PolicyConfigView, b: PolicyConfigView)
    requires
        PolicyConfig::document(a) == PolicyConfig::document(b),
    ensures
        a == b,
{
    let x = PolicyConfig::document(a)->Obj_0;
    let y = PolicyConfig::document(b)->Obj_0;
    assert(x[0].1 == y[0].1 && x[1].1 == y[1].1 && x[2].1 == y[2].1);
    let v = x[2].1->Obj_0;
    let w = y[2].1->Obj_0;
    assert(v[0].1 == w[0].1 && v[1].1 == w[1].1 && v[2].1 == w[2].1);
    prefix_lists_differ(a.verify.command_prefixes, b.verify.command_prefixes);
    assert(a.verify =~= b.verify);
    assert(a =~= b);
}

/// Different references have different documents.
pub proof fn refs_documents_differ(a: ProfileRefsView, b: ProfileRefsView)
    requires
        ProfileRefs::document(a) == ProfileRefs::document(b),
    ensures
        a == b,
{
    let x = ProfileRefs::document(a)->Obj_0;
    let y = ProfileRefs::document(b)->Obj_0;
    assert(x[0].1 == y[0].1 && x[1].1 == y[1].1);
    str_arrays_differ(a.guideline_profiles, b.guideline_profiles);
    str_arrays_differ(a.policy_profiles, b.policy_profiles);
    assert(a =~= b);
}

proof fn patch_documents_differ(a: PolicyProfilePatchV1View, b: PolicyProfilePatchV1View)
    requires
        PolicyProfilePatchV1::document(a) == PolicyProfilePatchV1::document(b),
    ensures
        a == b,
{
    let x = PolicyProfilePatchV1::document(a)->Obj_0;
    let y = PolicyProfilePatchV1::document(b)->Obj_0;
    assert(x[0].1 == y[0].1 && x[1].1 == y[1].1 && x[2].1 == y[2].1 && x[3].1 == y[3].1 && x[4].1
        == y[4].1);
    prefix_lists_differ(a.verify_command_prefixes_add, b.verify_command_prefixes_add);
    assert(a =~= b);
}

proof fn policy_profile_documents_differ(a: PolicyProfileV1View, b: PolicyProfileV1View)
    requires
        PolicyProfileV1::document(a) == PolicyProfileV1::document(b),
    ensures
        a == b,
{
    let x = PolicyProfileV1::document(a)->Obj_0;
    let y = PolicyProfileV1::document(b)->Obj_0;
    assert(x[0].1 == y[0].1 && x[1].1 == y[1].1 && x[2].1 == y[2].1);
    str_arrays_differ(a.includes, b.includes);
    patch_documents_differ(a.patch, b.patch);
    assert(a =~= b);
}

proof fn guideline_documents_differ(a: GuidelineProfileV1View, b: GuidelineProfileV1View)
    requires
        GuidelineProfileV1::document(a) == GuidelineProfileV1::document(b),
    ensures
        a == b,
{
    let x = GuidelineProfileV1::document(a)->Obj_0;
    let y = GuidelineProfileV1::document(b)->Obj_0;
    assert(x[0].1 == y[0].1 && x[1].1 == y[1].1 && x[2].1 == y[2].1);
    str_arrays_differ(a.includes, b.includes);
    str_arrays_differ(a.instructions, b.instructions);
    assert(a =~= b);
}

/// Different lists of applied profiles have different documents.
pub proof fn provenance_documents_differ(
    a: Seq<ProfileProvenanceEntryView>,
    b: Seq<ProfileProvenanceEntryView>,
)
    requires
        documents::<ProfileProvenanceEntry>(a) == documents::<ProfileProvenanceEntry>(b),
    ensures
        a == b,
{
    let x = documents::<ProfileProvenanceEntry>(a)->Arr_0;
    let y = documents::<ProfileProvenanceEntry>(b)->Arr_0;
    assert(x.len() == a.len() && y.len() == b.len());
    reveal_strlit("global");
    reveal_strlit("project");
    assert("global"@[0] != "project"@[0]);
    assert forall|i: int| 0 <= i < a.len() implies a[i] == b[i] by {
        assert(x[i] == ProfileProvenanceEntry::document(a[i]));
        assert(y[i] == ProfileProvenanceEntry::document(b[i]));
        let s = x[i]->Obj_0;
        let t = y[i]->Obj_0;
        assert(s[0].1 == t[0].1 && s[1].1 == t[1].1 && s[2].1 == t[2].1);
        assert(a[i] =~= b[i]);
    }
    assert(a =~= b);
}

proof fn scope_maps_differ(a: Seq<(Seq<char>, ProfileScope)>, b: Seq<(Seq<char>, ProfileScope)>)
    requires
        map_document::<ProfileScope>(a) == map_document::<ProfileScope>(b),
    ensures
        a == b,
{
    let x = map_document::<ProfileScope>(a)->Obj_0;
    let y = map_document::<ProfileScope>(b)->Obj_0;
    assert(x.len() == a.len() && y.len() == b.len());
    reveal_strlit("global");
    reveal_strlit("project");
    assert("global"@[0] != "project"@[0]);
    assert forall|i: int| 0 <= i < a.len() implies a[i] == b[i] by {
        assert(x[i] == (a[i].0, JsonView::Str(scope_name(a[i].1))));
        assert(y[i] == (b[i].0, JsonView::Str(scope_name(b[i].1))));
    }
    assert(a =~= b);
}

proof fn policy_maps_differ(
    a: Seq<(Seq<char>, PolicyProfileV1View)>,
    b: Seq<(Seq<char>, PolicyProfileV1View)>,
)
    requires
        map_document::<PolicyProfileV1>(a) == map_document::<PolicyProfileV1>(b),
    ensures
        a == b,
{
    let x = map_document::<PolicyProfileV1>(a)->Obj_0;
    let y = map_document::<PolicyProfileV1>(b)->Obj_0;
    assert(x.len() == a.len() && y.len() == b.len());
    assert forall|i: int| 0 <= i < a.len() implies a[i] == b[i] by {
        assert(x[i] == (a[i].0, PolicyProfileV1::document(a[i].1)));
        assert(y[i] == (b[i].0, PolicyProfileV1::document(b[i].1)));
        policy_profile_documents_differ(a[i].1, b[i].1);
    }
    assert(a =~= b);
}

proof fn guideline_maps_differ(
    a: Seq<(Seq<char>, GuidelineProfileV1View)>,
    b: Seq<(Seq<char>, GuidelineProfileV1View)>,
)
    requires
        map_document::<GuidelineProfileV1>(a) == map_document::<GuidelineProfileV1>(b),
    ensures
        a == b,
{
    let x = map_document::<GuidelineProfileV1>(a)->Obj_0;
    let y = map_document::<GuidelineProfileV1>(b)->Obj_0;
    assert(x.len() == a.len() && y.len() == b.len());
    assert forall|i: int| 0 <= i < a.len() implies a[i] == b[i] by {
        assert(x[i] == (a[i].0, GuidelineProfileV1::document(a[i].1)));
        assert(y[i] == (b[i].0, GuidelineProfileV1::document(b[i].1)));
        guideline_documents_differ(a[i].1, b[i].1);
    }
    assert(a =~= b);
}

/// Different registries have different documents.
pub proof fn registry_documents_differ(
    a: LoadedProfilesRegistryView,
    b: LoadedProfilesRegistryView,
)
    requires
        LoadedProfilesRegistry::document(a) == LoadedProfilesRegistry::document(b),
    ensures
        a == b,
{
    let x = LoadedProfilesRegistry::document(a)->Obj_0;
    let y = LoadedProfilesRegistry::document(b)->Obj_0;
    assert(x[0].1 == y[0].1 && x[1].1 == y[1].1 && x[2].1 == y[2].1 && x[3].1 == y[3].1 && x[4].1
        == y[4].1);
    guideline_maps_differ(a.guideline_profiles, b.guideline_profiles);
    scope_maps_differ(a.guideline_scope, b.guideline_scope);
    policy_maps_differ(a.policy_profiles, b.policy_profiles);
    scope_maps_differ(a.policy_scope, b.policy_scope);
    str_arrays_differ(a.warnings, b.warnings);
    assert(a =~= b);
}

} // verus!
