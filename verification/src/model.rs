//! The speech-recognition models the application can use, and the logic that
//! resolves a model's download URL from the published model index.

use crate::errors::Error;
use crate::errors::ModelIndexError;
use vstd::prelude::*;

verus! {

/// The URL of the public models index, which maps each model identifier to
/// the URL its weights can be downloaded from.
pub const INDEX_URL: &'static str =
    "https://raw.githubusercontent.com/arctic-hen7/sotto/prod-index/models.json";

/// The different kinds of models that can be downloaded.
#[derive(Clone, Copy, Debug, PartialEq, Eq, Structural)]
pub enum Model {
    WhisperTiny,
    WhisperBase,
    WhisperSmall,
    WhisperMedium,
    WhisperLarge,
}

impl Model {
    /// The identifier under which this model is keyed in the model index and
    /// on disk.
    pub open spec fn spec_identifier(self) -> Seq<char> {
        match self {
            Model::WhisperTiny => "whisper_tiny"@,
            Model::WhisperBase => "whisper_base"@,
            Model::WhisperSmall => "whisper_small"@,
            Model::WhisperMedium => "whisper_medium"@,
            Model::WhisperLarge => "whisper_large"@,
        }
    }

    /// Renders the identifier this model is keyed under.
    pub fn to_identifier(&self) -> (r: &'static str)
        ensures
            r@ == self.spec_identifier(),
    {
        match self {
            Model::WhisperTiny => "whisper_tiny",
            Model::WhisperBase => "whisper_base",
            Model::WhisperSmall => "whisper_small",
            Model::WhisperMedium => "whisper_medium",
            Model::WhisperLarge => "whisper_large",
        }
    }

    /// The name of the file this model is stored under once downloaded.
    pub open spec fn spec_file_name(self) -> Seq<char> {
        self.spec_identifier() + ".bin"@
    }

    /// Renders the name of the file this model is stored under.
    pub fn file_name(&self) -> (r: String)
        ensures
            r@ == self.spec_file_name(),
    {
        let mut name = String::from_str(self.to_identifier());
        name.append(".bin");
        name
    }

    /// Resolves the URL this model's weights can be downloaded from, given
    /// the status code and body the model index was fetched with. A failure
    /// status is refused; a body that does not parse as an index, or an
    /// index without this model's key, is a model-index error.
    pub fn resolve_model_url(&self, status: u16, body: &str) -> (r: Result<String, Error>)
        ensures
            resolves_model_url(*self, status, body@, r),
    {
        if !status_is_success(status) {
            return Err(Error::GetModelIndexBadStatus { status });
        }
        let pairs = match parse_model_index(body) {
            Ok(pairs) => pairs,
            Err(message) => {
                return Err(Error::ModelIndexError(ModelIndexError::ParseFailed { message }));
            },
        };
        let key = String::from_str(self.to_identifier());
        let ghost index = parsed_model_index(body@)->Some_0;
        let mut i: usize = 0;
        while i < pairs.len()
            invariant
                spec_status_ok(status),
                parsed_model_index(body@) == Some(index),
                forall|j: int|
                    0 <= j < pairs@.len() ==> index.contains_pair(
                        (#[trigger] pairs@[j]).0@,
                        pairs@[j].1@,
                    ),
                forall|k: Seq<char>|
                    index.contains_key(k) ==> exists|j: int|
                        0 <= j < pairs@.len() && (#[trigger] pairs@[j]).0@ == k,
                forall|j: int| 0 <= j < i ==> (#[trigger] pairs@[j]).0@ != key@,
                key@ == self.spec_identifier(),
                i <= pairs@.len(),
            decreases pairs@.len() - i,
        {
            if pairs[i].0 == key {
                return Ok(pairs[i].1.clone());
            }
            i = i + 1;
        }
        Err(Error::ModelIndexError(ModelIndexError::Incomplete { missing_key: key }))
    }
}

/// The classification HTTP clients apply to response status codes: the 2xx
/// range reports success.
pub open spec fn spec_status_ok(status: u16) -> bool {
    200 <= status < 300
}

/// Whether a response status code reports success.
pub fn status_is_success(status: u16) -> (r: bool)
    ensures
        r == spec_status_ok(status),
{
    status >= 200 && status < 300
}

/// Accepts or refuses the status code the model download itself was
/// answered with.
pub fn check_download_status(status: u16) -> (r: Result<(), Error>)
    ensures
        r is Ok <==> spec_status_ok(status),
        !spec_status_ok(status) ==> r == Result::<(), Error>::Err(
            (Error::DownloadModelBadStatus { status }),
        ),
{
    if status_is_success(status) {
        Ok(())
    } else {
        Err(Error::DownloadModelBadStatus { status })
    }
}

/// What the model index text parses to: the key/value map of a JSON object
/// whose values are all strings, or nothing where the text is not such an
/// object.
pub uninterp spec fn parsed_model_index(s: Seq<char>) -> Option<Map<Seq<char>, Seq<char>>>;

/// Relies on serde_json::from_str::<HashMap<String, String>>: parses a JSON
/// object with string values into its key/value pairs, failing exactly when
/// the text is not such an object. The map a given text parses to is a
/// function of the text alone; the order the pairs are handed back in (a
/// hash map's iteration order) is not, so nothing is said of it.
#[verifier::external_body]
fn parse_model_index(body: &str) -> (r: Result<Vec<(String, String)>, String>)
    ensures
        match r {
            Ok(pairs) => {
                &&& parsed_model_index(body@) is Some
                &&& forall|j: int|
                    0 <= j < pairs@.len() ==> (parsed_model_index(body@)->Some_0).contains_pair(
                        (#[trigger] pairs@[j]).0@,
                        pairs@[j].1@,
                    )
                &&& forall|k: Seq<char>|
                    (parsed_model_index(body@)->Some_0).contains_key(k) ==> exists|j: int|
                        0 <= j < pairs@.len() && (#[trigger] pairs@[j]).0@ == k
            },
            Err(_) => parsed_model_index(body@) is None,
        },
{
    let map: std::collections::HashMap<String, String> =
        serde_json::from_str(body).map_err(|e| e.to_string())?;
    Ok(map.into_iter().collect())
}

/// What `resolve_model_url` returns: a failure status is refused with that
/// status; otherwise the body must parse as a model index, the index must
/// hold the model's key, and the value under that key is the URL.
pub open spec fn resolves_model_url(
    model: Model,
    status: u16,
    body: Seq<char>,
    r: Result<String, Error>,
) -> bool {
    if !spec_status_ok(status) {
        r == Result::<String, Error>::Err((Error::GetModelIndexBadStatus { status }))
    } else {
        match parsed_model_index(body) {
            Option::None => r matches Err(
                Error::ModelIndexError(ModelIndexError::ParseFailed { .. }),
            ),
            Option::Some(index) => if index.contains_key(model.spec_identifier()) {
                r matches Ok(url) && url@ == index[model.spec_identifier()]
            } else {
                r matches Err(Error::ModelIndexError(ModelIndexError::Incomplete { missing_key }))
                    && missing_key@ == model.spec_identifier()
            },
        }
    }
}

} // verus!
