use vstd::prelude::*;
use vstd::string::StringExecFns;

verus! {

/// The instruction text that a prompt puts in front of the caller's
/// attribute description.
pub open spec fn spec_instruction_text(attribute_description: Seq<char>) -> Seq<char> {
    "output in json. Rate the text based on the guideline provided. Rate from 0.0 to 10.0. {'offensiveness': your score}\nGuideline: "@
        + attribute_description
}

/// A prompt for LLM-based vector generation: one instruction asking the
/// model to rate the subject against one attribute description, answering
/// in JSON.
pub struct Prompt {
    instruction: String,
}

impl Prompt {
    /// The instruction held.
    pub closed spec fn spec_instruction(self) -> Seq<char> {
        self.instruction@
    }

    /// Creates a new `Prompt` for the given attribute description: the fixed
    /// rating instruction followed by the description.
    pub fn new(attribute_description: String) -> (p: Prompt)
        ensures
            p.spec_instruction() == spec_instruction_text(attribute_description@),
    {
        let mut instruction: String = String::new();
        instruction.append(
            "output in json. Rate the text based on the guideline provided. Rate from 0.0 to 10.0. {'offensiveness': your score}\nGuideline: ",
        );
        instruction.append(attribute_description.as_str());
        Prompt { instruction }
    }

    /// Returns a copy of the instruction string.
    pub fn get_instruction(&self) -> (r: String)
        ensures
            r@ == self.spec_instruction(),
    {
        self.instruction.clone()
    }
}

} // verus!
