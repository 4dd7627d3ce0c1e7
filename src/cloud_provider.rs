//! Cloud providers and regions, their names, and what authenticating to
//! one of them asks of the provider's command-line tool.

use vstd::prelude::*;
use crate::config::Config;

verus! {

#[derive(Clone, Copy, Debug, PartialEq, Eq, Structural)]
pub enum CloudProvider {
    AWS,
    GCP,
    AZURE,
}

#[derive(Clone, Copy, Debug, PartialEq, Eq, Structural)]
pub enum CloudProviderRegion {
    UsEast1,
    UsEast2,
}

/// What `str::to_lowercase` gives for a text.
pub uninterp spec fn lower_of(s: Seq<char>) -> Seq<char>;

/// Relies on str::to_lowercase: the lowercase form of a text, a function of
/// its characters alone.
#[verifier::external_body]
fn lowercase(s: &str) -> (r: String)
    ensures
        r@ == lower_of(s@),
{
    s.to_lowercase()
}

pub open spec fn provider_name(p: CloudProvider) -> Seq<char> {
    match p {
        CloudProvider::AWS => "AWS"@,
        CloudProvider::GCP => "GCP"@,
        CloudProvider::AZURE => "Azure"@,
    }
}

/// A provider read from its lowercase name; `s` is the name as given.
pub open spec fn provider_from(folded: Seq<char>, s: Seq<char>) -> Result<CloudProvider, Seq<char>> {
    if folded == "aws"@ {
        Ok(CloudProvider::AWS)
    } else if folded == "gcp"@ {
        Ok(CloudProvider::GCP)
    } else if folded == "azure"@ {
        Ok(CloudProvider::AZURE)
    } else {
        Err("Unknown cloud provider: "@ + s)
    }
}

pub open spec fn region_name(r: CloudProviderRegion) -> Seq<char> {
    match r {
        CloudProviderRegion::UsEast1 => "us-east-1"@,
        CloudProviderRegion::UsEast2 => "us-east-2"@,
    }
}

/// A region read from its lowercase name; `s` is the name as given.
pub open spec fn region_from(folded: Seq<char>, s: Seq<char>) -> Result<CloudProviderRegion, Seq<char>> {
    if folded == "us-east-1"@ {
        Ok(CloudProviderRegion::UsEast1)
    } else if folded == "us-east-2"@ {
        Ok(CloudProviderRegion::UsEast2)
    } else {
        Err("Unknown region: "@ + s)
    }
}

pub open spec fn result_view<T>(r: Result<T, String>) -> Result<T, Seq<char>> {
    match r {
        Ok(v) => Ok(v),
        Err(e) => Err(e@),
    }
}

fn unknown(prefix: &str, s: &str) -> (r: String)
    ensures
        r@ == prefix@ + s@,
{
    let mut m = String::from_str(prefix);
    m.append(s);
    m
}

impl CloudProvider {
    /// The provider's display name.
    pub fn to_text(&self) -> (r: String)
        ensures
            r@ == provider_name(*self),
    {
        match self {
            CloudProvider::AWS => String::from_str("AWS"),
            CloudProvider::GCP => String::from_str("GCP"),
            CloudProvider::AZURE => String::from_str("Azure"),
        }
    }

    /// Reads a provider from a name that is already lowercase.
    pub fn from_folded(folded: &str, s: &str) -> (r: Result<CloudProvider, String>)
        ensures
            result_view(r) == provider_from(folded@, s@),
    {
        let f = String::from_str(folded);
        if f == String::from_str("aws") {
            Ok(CloudProvider::AWS)
        } else if f == String::from_str("gcp") {
            Ok(CloudProvider::GCP)
        } else if f == String::from_str("azure") {
            Ok(CloudProvider::AZURE)
        } else {
            Err(unknown("Unknown cloud provider: ", s))
        }
    }

    /// Reads a provider from its name in any case.
    pub fn from_str(s: &str) -> (r: Result<CloudProvider, String>)
        ensures
            result_view(r) == provider_from(lower_of(s@), s@),
    {
        let folded = lowercase(s);
        CloudProvider::from_folded(folded.as_str(), s)
    }
}

impl CloudProviderRegion {
    /// The region's name as the provider spells it.
    pub fn to_text(&self) -> (r: String)
        ensures
            r@ == region_name(*self),
    {
        match self {
            CloudProviderRegion::UsEast1 => String::from_str("us-east-1"),
            CloudProviderRegion::UsEast2 => String::from_str("us-east-2"),
        }
    }

    /// Reads a region from a name that is already lowercase.
    pub fn from_folded(folded: &str, s: &str) -> (r: Result<CloudProviderRegion, String>)
        ensures
            result_view(r) == region_from(folded@, s@),
    {
        let f = String::from_str(folded);
        if f == String::from_str("us-east-1") {
            Ok(CloudProviderRegion::UsEast1)
        } else if f == String::from_str("us-east-2") {
            Ok(CloudProviderRegion::UsEast2)
        } else {
            Err(unknown("Unknown region: ", s))
        }
    }

    /// Reads a region from its name in any case.
    pub fn from_str(s: &str) -> (r: Result<CloudProviderRegion, String>)
        ensures
            result_view(r) == region_from(lower_of(s@), s@),
    {
        let folded = lowercase(s);
        CloudProviderRegion::from_folded(folded.as_str(), s)
    }
}

pub struct CloudProviderAuthParams {
    pub provider: CloudProvider,
    pub region: CloudProviderRegion,
}

impl CloudProviderAuthParams {
    pub fn new(provider: CloudProvider, region: CloudProviderRegion) -> (r: Self)
        ensures
            r.provider == provider,
            r.region == region,
    {
        Self { provider, region }
    }
}

/// Arguments of one `aws configure set` call.
pub open spec fn configure_set(setting: Seq<char>, value: Seq<char>) -> Seq<Seq<char>> {
    seq!["configure"@, "set"@, setting, value, "--"@]
}

/// The tool invocations that authenticate to a provider: for AWS, the
/// region and both access keys are set in the tool's configuration; the
/// other providers need none.
pub open spec fn auth_spec(provider: CloudProvider, region: CloudProviderRegion, access_key: Seq<char>, secret_key: Seq<char>) -> Seq<Seq<Seq<char>>> {
    match provider {
        CloudProvider::AWS => seq![
            configure_set("region"@, region_name(region)),
            configure_set("aws_access_key_id"@, access_key),
            configure_set("aws_secret_access_key"@, secret_key),
        ],
        _ => Seq::empty(),
    }
}

fn configure_set_args(setting: &str, value: &str) -> (r: Vec<String>)
    ensures
        r.deep_view() == configure_set(setting@, value@),
{
    let r = vec![
        String::from_str("configure"),
        String::from_str("set"),
        String::from_str(setting),
        String::from_str(value),
        String::from_str("--"),
    ];
    assert(r.deep_view() =~= configure_set(setting@, value@));
    r
}

/// The argument lists, one per call of the provider's tool, that
/// authenticate with `params` and `config`.
pub fn auth_commands(params: &CloudProviderAuthParams, config: &Config) -> (r: Vec<Vec<String>>)
    ensures
        r.deep_view() == auth_spec(params.provider, params.region, config.aws_access_key@, config.aws_secret_key@),
{
    match params.provider {
        CloudProvider::AWS => {
            let region = params.region.to_text();
            let r = vec![
                configure_set_args("region", region.as_str()),
                configure_set_args("aws_access_key_id", config.aws_access_key.as_str()),
                configure_set_args("aws_secret_access_key", config.aws_secret_key.as_str()),
            ];
            assert(r.deep_view() =~= auth_spec(params.provider, params.region, config.aws_access_key@, config.aws_secret_key@));
            r
        },
        _ => {
            let r: Vec<Vec<String>> = Vec::new();
            assert(r.deep_view() =~= Seq::<Seq<Seq<char>>>::empty());
            r
        },
    }
}

/// Authentication succeeded when every call of the tool succeeded.
pub fn auth_succeeded(statuses: &Vec<bool>) -> (r: bool)
    ensures
        r == (forall|i: int| 0 <= i < statuses@.len() ==> #[trigger] statuses@[i]),
{
    let mut i: usize = 0;
    while i < statuses.len()
        invariant
            i <= statuses@.len(),
            forall|j: int| 0 <= j < i ==> #[trigger] statuses@[j],
        decreases statuses.len() - i,
    {
        if !statuses[i] {
            return false;
        }
        i = i + 1;
    }
    true
}

} // verus!
