//! Replies of a chat-completion service that may call functions: the text
//! of the choices, the function calls they ask for, and the one function
//! offered so far, which retrieves code context from a repository.
use vstd::prelude::*;
use vstd::string::StringExecFns;

verus! {

/// Who wrote a message.
#[derive(Clone, Copy, Debug, PartialEq, Eq, Structural)]
pub enum Role {
    User,
    Assistant,
    System,
}

/// Token counts of a request and its reply.
#[derive(Clone, Copy, Debug, PartialEq, Eq, Structural)]
pub struct Usage {
    pub prompt_tokens: u32,
    pub completion_tokens: u32,
    pub total_tokens: u32,
}

/// A function call that the service asks for: the function's name and its
/// arguments as JSON text.
pub struct FunctionCall {
    pub name: String,
    pub arguments: String,
}

impl Clone for FunctionCall {
    fn clone(&self) -> (c: FunctionCall)
        ensures
            c == *self,
    {
        FunctionCall { name: self.name.clone(), arguments: self.arguments.clone() }
    }
}

/// The message of one choice.
pub struct FunctionCallingMessage {
    pub role: Option<Role>,
    pub content: Option<String>,
    pub function_call: FunctionCall,
}

/// One choice of a reply.
pub struct FunctionCallingChoice {
    pub index: usize,
    pub message: FunctionCallingMessage,
    pub finish_reason: Option<String>,
}

/// A reply of the service.
pub struct OpenAIFunctionCallingResponse {
    pub id: Option<String>,
    pub object: String,
    pub created: u32,
    pub model: String,
    pub choices: Vec<FunctionCallingChoice>,
    pub usage: Usage,
}

/// The texts of the first `n` choices that have one, in order.
pub open spec fn contents_of(choices: Seq<FunctionCallingChoice>, n: int) -> Seq<String>
    decreases n,
{
    if n <= 0 {
        Seq::empty()
    } else {
        match choices[n - 1].message.content {
            Some(c) => contents_of(choices, n - 1).push(c),
            None => contents_of(choices, n - 1),
        }
    }
}

impl OpenAIFunctionCallingResponse {
    /// The text of each choice that has one, in the order of the choices.
    pub fn get_message_content(&self) -> (contents: Vec<String>)
        ensures
            contents@ == contents_of(self.choices@, self.choices@.len() as int),
    {
        let mut contents: Vec<String> = Vec::new();
        let mut i: usize = 0;
        while i < self.choices.len()
            invariant
                i <= self.choices.len(),
                contents@ == contents_of(self.choices@, i as int),
            decreases self.choices.len() - i,
        {
            match &self.choices[i].message.content {
                Some(c) => contents.push(c.clone()),
                None => {},
            }
            i += 1;
        }
        contents
    }

    /// The function call of each choice, in the order of the choices.
    pub fn get_function_details(&self) -> (calls: Vec<FunctionCall>)
        ensures
            calls@.len() == self.choices@.len(),
            forall|i: int|
                0 <= i < calls@.len() ==> #[trigger] calls@[i]
                    == self.choices@[i].message.function_call,
    {
        let mut calls: Vec<FunctionCall> = Vec::new();
        let mut i: usize = 0;
        while i < self.choices.len()
            invariant
                i <= self.choices.len(),
                calls@.len() == i,
                forall|j: int|
                    0 <= j < i ==> #[trigger] calls@[j] == self.choices@[j].message.function_call,
            decreases self.choices.len() - i,
        {
            calls.push(self.choices[i].message.function_call.clone());
            i += 1;
        }
        calls
    }
}

/// The function that retrieves relevant code from a repository, given
/// queries in natural language.
pub struct CodeContextRetriever {}

impl CodeContextRetriever {
    /// The function's name, as the service calls it.
    pub fn name(&self) -> (n: String)
        ensures
            n@ == "retrieve_code_context_from_repository"@,
    {
        String::from_str("retrieve_code_context_from_repository")
    }

    /// What the function does, for the service.
    pub fn description(&self) -> (d: String)
        ensures
            d@ == "Retrieve relevant code snippets from repository with natural language"@,
    {
        String::from_str("Retrieve relevant code snippets from repository with natural language")
    }
}

} // verus!
