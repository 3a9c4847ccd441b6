//! A gateway library that normalises prompt-completion requests for two
//! families of language-model backends: a local model server and an
//! OpenAI-compatible chat endpoint.

pub mod backend;
pub mod json;
pub mod ollama_client;
pub mod openai_client;
pub mod secrets;
pub mod settings;
pub mod web_api_client;
