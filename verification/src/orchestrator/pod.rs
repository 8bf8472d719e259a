//! Pods as the orchestrator asks for them.

use crate::text::{decimal, decimal_text, law_decimal_injective};
use vstd::prelude::*;

verus! {

/// The pods that are made.
pub const PODS_COUNT: u16 = 2000;

/// The first of them.
pub const START_POD: u16 = 0;

/// The seconds that a pod is given to come up.
pub const RUNNING_TIMEOUT_SECS: u64 = 60;

/// The image that the pods run.
pub const SERVICE_IMAGE: &'static str = "localhost:32000/shuttle-service:latest";

/// The name of a pod.
pub open spec fn pod_name(idx: nat) -> Seq<char> {
    "shuttle-service-"@ + decimal(idx)
}

/// The name of a pod.
pub fn service_name(idx: u16) -> (r: String)
    ensures
        r@ == pod_name(idx as nat),
        r@ == "shuttle-service-"@ + decimal(idx as nat),
{
    let number = decimal_text(idx as u64);
    "shuttle-service-".to_owned().concat(number.as_str())
}

/// Different pods have different names.
pub proof fn law_pod_names_differ(a: nat, b: nat)
    requires
        pod_name(a) == pod_name(b),
    ensures
        a == b,
{
    let prefix = "shuttle-service-"@;
    assert(pod_name(a).skip(prefix.len() as int) =~= decimal(a));
    assert(pod_name(b).skip(prefix.len() as int) =~= decimal(b));
    law_decimal_injective(a, b);
}

/// What is asked for: a pod with one container that has its name.
#[derive(Debug, PartialEq, Eq)]
pub struct PodManifest {
    pub api_version: String,
    pub kind: String,
    pub name: String,
    pub container_name: String,
    pub image: String,
}

/// A [`PodManifest`] as contracts speak of it.
pub struct PodManifestView {
    pub api_version: Seq<char>,
    pub kind: Seq<char>,
    pub name: Seq<char>,
    pub container_name: Seq<char>,
    pub image: Seq<char>,
}

impl View for PodManifest {
    type V = PodManifestView;

    open spec fn view(&self) -> PodManifestView {
        PodManifestView {
            api_version: self.api_version@,
            kind: self.kind@,
            name: self.name@,
            container_name: self.container_name@,
            image: self.image@,
        }
    }
}

/// The pod of this name that runs this image.
pub open spec fn manifest_of(name: Seq<char>, image: Seq<char>) -> PodManifestView {
    PodManifestView { api_version: "v1"@, kind: "Pod"@, name, container_name: name, image }
}

/// The pod of this name that runs this image.
pub fn manifest(name: &str, image: &str) -> (r: PodManifest)
    ensures
        r@ == manifest_of(name@, image@),
        r.api_version@ == "v1"@,
        r.kind@ == "Pod"@,
        r.name@ == name@,
        r.container_name@ == name@,
        r.image@ == image@,
{
    PodManifest {
        api_version: "v1".to_owned(),
        kind: "Pod".to_owned(),
        name: name.to_owned(),
        container_name: name.to_owned(),
        image: image.to_owned(),
    }
}

/// Whether two names are the same.
pub(crate) fn same_name(a: &str, b: &str) -> (r: bool)
    ensures
        r == (a@ == b@),
{
    let a_bytes = a.as_bytes();
    let b_bytes = b.as_bytes();
    proof {
        vstd::utf8::encode_utf8_decode_utf8(a@);
        vstd::utf8::encode_utf8_decode_utf8(b@);
    }
    if a_bytes.len() != b_bytes.len() {
        return false;
    }
    let mut i: usize = 0;
    while i < a_bytes.len()
        invariant
            i <= a_bytes@.len(),
            a_bytes@.len() == b_bytes@.len(),
            forall|j: int| 0 <= j < i ==> a_bytes@[j] == b_bytes@[j],
            a_bytes@ == vstd::utf8::encode_utf8(a@),
            b_bytes@ == vstd::utf8::encode_utf8(b@),
        decreases a_bytes@.len() - i,
    {
        if a_bytes[i] != b_bytes[i] {
            return false;
        }
        i += 1;
    }
    assert(a_bytes@ =~= b_bytes@);
    true
}

/// What a pod that was looked up says of its containers.
#[derive(Debug, PartialEq, Eq)]
pub struct PodSpec {
    /// The names of the containers, in their order.
    pub containers: Vec<String>,
}

/// Whether a pod that was looked up is the one of this name: its first container has the name, as
/// far as it says anything of its containers.
pub open spec fn belongs_to(spec_: Option<PodSpec>, name: Seq<char>) -> bool {
    match spec_ {
        Some(s) => s.containers@.len() > 0 && s.containers@[0]@ == name,
        None => true,
    }
}

/// Whether a pod that was looked up is the one of this name.
pub fn is_pod_of(found: &Option<PodSpec>, name: &str) -> (r: bool)
    ensures
        r == belongs_to(*found, name@),
        r <==> (found matches Some(s) ==> s.containers@.len() > 0 && s.containers@[0]@ == name@),
{
    match found {
        Some(s) => s.containers.len() > 0 && same_name(s.containers[0].as_str(), name),
        None => true,
    }
}

/// The name of a pod ends with its number.
pub proof fn law_name_ends_with_the_number(idx: nat)
    ensures
        pod_name(idx) == "shuttle-service-"@ + decimal(idx),
        pod_name(idx).len() == 16 + decimal(idx).len(),
        pod_name(idx).skip(16) == decimal(idx),
{
    reveal_strlit("shuttle-service-");
    assert(pod_name(idx).skip(16) =~= decimal(idx));
}

/// A pod has the name and the image that are asked for, and its container has its name.
pub proof fn law_manifest_as_asked_for(name: Seq<char>, image: Seq<char>, m: PodManifest)
    ensures
        manifest_of(name, image).api_version == "v1"@,
        manifest_of(name, image).kind == "Pod"@,
        manifest_of(name, image).name == name,
        manifest_of(name, image).container_name == name,
        manifest_of(name, image).image == image,
        m@.api_version == m.api_version@,
        m@.kind == m.kind@,
        m@.name == m.name@,
        m@.container_name == m.container_name@,
        m@.image == m.image@,
{
}

/// A pod that says something of its containers is the one of a name exactly if the first of them
/// has that name; one that has none is not. A pod that says nothing is taken for it.
pub proof fn law_first_container_names_the_pod(found: Option<PodSpec>, name: Seq<char>)
    ensures
        found is None ==> belongs_to(found, name),
        found matches Some(s) ==> (belongs_to(found, name) <==> s.containers@.len() > 0
            && s.containers@[0]@ == name),
{
}

} // verus!
