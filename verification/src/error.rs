//! What goes wrong when a reply is read, and the fault that the service
//! reports.

use vstd::prelude::*;
use crate::json::{lemma_view_of_parts, members_view, Json, JsonTree};
use crate::wire::{
    encode_option, encoded_option, entry, lemma_optional_at, optional, read_optional, Wire,
};

verus! {

/// Why the transport could not be set up, or its reply not read.
#[derive(Clone, Copy, Debug, PartialEq, Eq)]
pub enum Failure {
    /// The address that the environment gives for the proxy is none that a
    /// proxy can be reached at.
    Address,
    /// The reply is not a JSON text.
    Syntax,
    /// The reply is JSON, but neither what was asked for nor a fault.
    Shape,
}

/// The two ways in which the client fails.
#[derive(Clone, Copy, Debug, PartialEq, Eq)]
pub enum Error {
    /// The transport could not be set up, or its reply not read.
    ReqwestErr(Failure),
    /// The service answered with a fault, or with records other than the
    /// query allows.
    OtherError,
}

/// A type that represents an error from the API.
#[derive(Clone, Debug, PartialEq, Eq)]
pub struct ApiError {
    /// The debuginfo available.
    pub debuginfo: Option<String>,
    /// The failure code.
    pub faultcode: Option<String>,
    /// The failure description.
    pub faultstring: Option<String>,
}

/// The mathematical value of a [`ApiError`].
pub struct ApiErrorView {
    pub debuginfo: Option<Seq<char>>,
    pub faultcode: Option<Seq<char>>,
    pub faultstring: Option<Seq<char>>,
}

impl DeepView for ApiError {
    type V = ApiErrorView;

    open spec fn deep_view(&self) -> ApiErrorView {
        ApiErrorView {
            debuginfo: self.debuginfo.deep_view(),
            faultcode: self.faultcode.deep_view(),
            faultstring: self.faultstring.deep_view(),
        }
    }
}

/// The lengths of the names of the members, and that no two names of one
/// length are the same.
proof fn lemma_fault_names()
    ensures
        "debuginfo"@.len() == 9,
        "faultcode"@.len() == 9,
        "faultstring"@.len() == 11,
        "debuginfo"@ != "faultcode"@,
{
    reveal_strlit("debuginfo");
    reveal_strlit("faultcode");
    reveal_strlit("faultstring");
    assert("debuginfo"@[0] != "faultcode"@[0]);
}

/// An object; each of `debuginfo`, `faultcode` and `faultstring` may be left
/// out or `null`.
impl Wire for ApiError {
    open spec fn decoded(tree: JsonTree) -> Option<ApiErrorView> {
        match tree {
            JsonTree::Object(members) => {
                let debuginfo = optional::<String>(members, "debuginfo"@);
                let faultcode = optional::<String>(members, "faultcode"@);
                let faultstring = optional::<String>(members, "faultstring"@);
                if debuginfo is Some && faultcode is Some && faultstring is Some {
                    Some(
                        ApiErrorView {
                            debuginfo: debuginfo->Some_0,
                            faultcode: faultcode->Some_0,
                            faultstring: faultstring->Some_0,
                        },
                    )
                } else {
                    None
                }
            },
            _ => None,
        }
    }

    open spec fn encoded(value: ApiErrorView) -> JsonTree {
        JsonTree::Object(
            seq![
                ("debuginfo"@, encoded_option::<String>(value.debuginfo)),
                ("faultcode"@, encoded_option::<String>(value.faultcode)),
                ("faultstring"@, encoded_option::<String>(value.faultstring)),
            ],
        )
    }

    open spec fn sound(value: ApiErrorView) -> bool {
        true
    }

    fn decode(json: &Json) -> (r: Option<ApiError>) {
        proof {
            lemma_view_of_parts(*json);
        }
        match json {
            Json::Object(members) => {
                let debuginfo = read_optional::<String>(members, "debuginfo")?;
                let faultcode = read_optional::<String>(members, "faultcode")?;
                let faultstring = read_optional::<String>(members, "faultstring")?;
                Some(
                    ApiError {
                        debuginfo,
                        faultcode,
                        faultstring,
                    },
                )
            },
            _ => None,
        }
    }

    fn encode(&self) -> (json: Json) {
        let mut members: Vec<(String, Json)> = Vec::new();
        members.push(entry("debuginfo", encode_option::<String>(&self.debuginfo)));
        members.push(entry("faultcode", encode_option::<String>(&self.faultcode)));
        members.push(entry("faultstring", encode_option::<String>(&self.faultstring)));
        let json = Json::Object(members);
        proof {
            lemma_view_of_parts(json);
            assert(members_view(members@) =~= Self::encoded(self.deep_view())->Object_0);
        }
        json
    }

    proof fn decoded_is_sound(tree: JsonTree) {
    }

    proof fn never_null(value: ApiErrorView) {
    }

    proof fn round_trip(value: ApiErrorView) {
        let members = Self::encoded(value)->Object_0;
        lemma_fault_names();
        lemma_optional_at::<String>(members, 0, "debuginfo"@, value.debuginfo);
        lemma_optional_at::<String>(members, 1, "faultcode"@, value.faultcode);
        lemma_optional_at::<String>(members, 2, "faultstring"@, value.faultstring);
    }
}

} // verus!
