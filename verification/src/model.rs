//! The closed set of supported model identifiers and their wire-format names.

use vstd::prelude::*;

verus! {

/// A supported chat model. The set is closed: the service is only ever asked
/// for one of these, under the exact name `as_str` returns.
#[derive(Clone, Copy, Debug, PartialEq, Eq, Structural)]
#[allow(non_camel_case_types)]
pub enum Model {
    Gpt_4,
    Gpt_4_0314,
    Gpt_4_32k,
    Gpt_4_32k_0314,
    Gpt_3_5_Turbo,
    Gpt_3_5_Turbo_0301,
}

impl Model {
    /// The wire-format name of this model, as a sequence of characters.
    pub open spec fn spec_name(self) -> Seq<char> {
        match self {
            Model::Gpt_4 => "gpt-4"@,
            Model::Gpt_4_0314 => "gpt-4-0314"@,
            Model::Gpt_4_32k => "gpt-4-32k"@,
            Model::Gpt_4_32k_0314 => "gpt-4-32k-0314"@,
            Model::Gpt_3_5_Turbo => "gpt-3.5-turbo"@,
            Model::Gpt_3_5_Turbo_0301 => "gpt-3.5-turbo-0301"@,
        }
    }

    /// The literal name sent to the completion endpoint for this model.
    pub fn as_str(&self) -> (r: &'static str)
        ensures
            r@ == self.spec_name(),
    {
        match self {
            Model::Gpt_4 => "gpt-4",
            Model::Gpt_4_0314 => "gpt-4-0314",
            Model::Gpt_4_32k => "gpt-4-32k",
            Model::Gpt_4_32k_0314 => "gpt-4-32k-0314",
            Model::Gpt_3_5_Turbo => "gpt-3.5-turbo",
            Model::Gpt_3_5_Turbo_0301 => "gpt-3.5-turbo-0301",
        }
    }

    /// Recognise a wire-format name. Returns the model it names, and `None`
    /// exactly when no supported model bears that name.
    pub fn from_name(name: &String) -> (r: Option<Model>)
        ensures
            match r {
                Some(m) => name@ == m.spec_name(),
                None => forall|m: Model| name@ != m.spec_name(),
            },
    {
        proof {
            reveal_strlit("gpt-4");
            reveal_strlit("gpt-4-0314");
            reveal_strlit("gpt-4-32k");
            reveal_strlit("gpt-4-32k-0314");
            reveal_strlit("gpt-3.5-turbo");
            reveal_strlit("gpt-3.5-turbo-0301");
        }
        if *name == "gpt-4".to_owned() {
            Some(Model::Gpt_4)
        } else if *name == "gpt-4-0314".to_owned() {
            Some(Model::Gpt_4_0314)
        } else if *name == "gpt-4-32k".to_owned() {
            Some(Model::Gpt_4_32k)
        } else if *name == "gpt-4-32k-0314".to_owned() {
            Some(Model::Gpt_4_32k_0314)
        } else if *name == "gpt-3.5-turbo".to_owned() {
            Some(Model::Gpt_3_5_Turbo)
        } else if *name == "gpt-3.5-turbo-0301".to_owned() {
            Some(Model::Gpt_3_5_Turbo_0301)
        } else {
            None
        }
    }
}

impl Default for Model {
    /// The model used when none is chosen: the lowest-cost turbo variant.
    fn default() -> (m: Model)
        ensures
            m == Model::Gpt_3_5_Turbo,
    {
        Model::Gpt_3_5_Turbo
    }
}

} // verus!
