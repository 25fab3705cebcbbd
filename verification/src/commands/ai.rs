//! The models the host knows and the metadata it writes for a clip.

use vstd::prelude::*;
use vstd::string::*;

verus! {

/// A model that the host can run.
#[derive(Debug)]
pub struct AIModel {
    pub id: String,
    pub name: String,
    pub model_type: String,
    /// Size of the model file in bytes.
    pub size: u64,
    pub loaded: bool,
}

/// Whether `model` is the model with these fields.
pub open spec fn is_model(
    model: AIModel,
    id: Seq<char>,
    name: Seq<char>,
    model_type: Seq<char>,
    size: u64,
    loaded: bool,
) -> bool {
    &&& model.id@ == id
    &&& model.name@ == name
    &&& model.model_type@ == model_type
    &&& model.size == size
    &&& model.loaded == loaded
}

/// What the host says about a clip.
#[derive(Debug)]
pub struct Metadata {
    pub title: String,
    pub description: String,
    pub tags: Vec<String>,
    pub highlights: Vec<String>,
}

/// The texts that `strings` hold, in order.
pub open spec fn texts(strings: Seq<String>) -> Seq<Seq<char>> {
    Seq::new(strings.len(), |i: int| strings[i]@)
}

/// The models the host knows: the highlight detector, which is loaded, and
/// the caption generator, which is not.
pub fn list_ai_models() -> (models: Vec<AIModel>)
    ensures
        models.len() == 2,
        is_model(models[0], "model_1"@, "Highlight Detector"@, "ONNX"@, 52428800, true),
        is_model(models[1], "model_2"@, "Caption Generator"@, "TFLite"@, 31457280, false),
{
    let mut models: Vec<AIModel> = Vec::new();
    models.push(
        AIModel {
            id: String::from_str("model_1"),
            name: String::from_str("Highlight Detector"),
            model_type: String::from_str("ONNX"),
            size: 52428800,
            loaded: true,
        },
    );
    models.push(
        AIModel {
            id: String::from_str("model_2"),
            name: String::from_str("Caption Generator"),
            model_type: String::from_str("TFLite"),
            size: 31457280,
            loaded: false,
        },
    );
    models
}

/// The metadata of a clip. Every clip gets the same for now.
pub fn generate_metadata(clip_id: &str) -> (metadata: Metadata)
    ensures
        metadata.title@ == "Epic Gaming Moment"@,
        metadata.description@ == "An amazing play captured during a competitive match"@,
        texts(metadata.tags@) == seq!["gaming"@, "highlight"@, "epic"@],
        texts(metadata.highlights@) == seq!["00:05"@, "00:15"@],
{
    let mut tags: Vec<String> = Vec::new();
    tags.push(String::from_str("gaming"));
    tags.push(String::from_str("highlight"));
    tags.push(String::from_str("epic"));
    let mut highlights: Vec<String> = Vec::new();
    highlights.push(String::from_str("00:05"));
    highlights.push(String::from_str("00:15"));
    assert(texts(tags@) =~= seq!["gaming"@, "highlight"@, "epic"@]);
    assert(texts(highlights@) =~= seq!["00:05"@, "00:15"@]);
    Metadata {
        title: String::from_str("Epic Gaming Moment"),
        description: String::from_str("An amazing play captured during a competitive match"),
        tags,
        highlights,
    }
}

} // verus!
