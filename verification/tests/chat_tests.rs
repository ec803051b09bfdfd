use companion_core::chat::{
    build_chat_messages, build_chat_output, chat_result_from_message, system_prompt_text,
    Message, OllamaClient,
};
use companion_core::errors::ServiceError;
use companion_core::llama::{build_server_args, LlamaServer};
use companion_core::supervisor::{Liveness, SpawnOutcome};

#[test]
fn client_defaults() {
    let c = OllamaClient::new();
    assert_eq!(c.model, "gemma3:4b");
    assert!(!c.use_llama_cpp);
    assert_eq!(c.base_url, "http://localhost:11434");
    assert_eq!(c.health_url(), "http://localhost:11434/api/tags");
    assert_eq!(c.chat_endpoint(), "http://localhost:11434/api/chat");
}

#[test]
fn llama_cpp_client_addresses() {
    let c = OllamaClient::new().with_llama_cpp();
    assert!(c.use_llama_cpp);
    assert_eq!(c.health_url(), "http://127.0.0.1:8080/health");
    assert_eq!(c.chat_endpoint(), "http://127.0.0.1:8080/v1/chat/completions");
}

#[test]
fn custom_base_url() {
    let c = OllamaClient::new().set_base_url("http://10.0.0.2:9999".to_string());
    assert_eq!(c.health_url(), "http://10.0.0.2:9999/api/tags");
}

#[test]
fn chat_messages_wrap_history_with_prompt_and_user_turn() {
    let history = vec![
        Message { role: "user".to_string(), content: "hi".to_string(), images: None },
        Message { role: "assistant".to_string(), content: "hello".to_string(), images: None },
    ];
    let msgs = build_chat_messages("what now?", history, Some("imagedata".to_string()));
    assert_eq!(msgs.len(), 4);
    assert_eq!(msgs[0].role, "system");
    assert_eq!(msgs[0].content, system_prompt_text());
    assert_eq!(msgs[1].content, "hi");
    assert_eq!(msgs[2].content, "hello");
    assert_eq!(msgs[3].role, "user");
    assert_eq!(msgs[3].content, "what now?");
    assert_eq!(msgs[3].images.as_ref().expect("image").len(), 1);
    assert_eq!(msgs[3].images.as_ref().expect("image")[0], "imagedata");
}

#[test]
fn chat_messages_without_image() {
    let msgs = build_chat_messages("hello", vec![], None);
    assert_eq!(msgs.len(), 2);
    assert!(msgs[1].images.is_none());
}

#[test]
fn chat_result_extracts_emotion_and_keeps_raw_message() {
    let message = Message {
        role: "assistant".to_string(),
        content: "Looks great! [EMOTION:excited]".to_string(),
        images: None,
    };
    let result = chat_result_from_message(message);
    assert_eq!(result.text, "Looks great!");
    assert_eq!(result.emotion, "excited");
    assert_eq!(result.raw_message.content, "Looks great! [EMOTION:excited]");
}

#[test]
fn chat_output_extends_history_in_order() {
    let message = Message {
        role: "assistant".to_string(),
        content: "Sure. [EMOTION:neutral]".to_string(),
        images: None,
    };
    let result = chat_result_from_message(message);
    let history = vec![Message {
        role: "user".to_string(),
        content: "earlier".to_string(),
        images: None,
    }];
    let out = build_chat_output("please".to_string(), history, result);
    assert_eq!(out.response, "Sure.");
    assert_eq!(out.emotion, "neutral");
    assert_eq!(out.updated_history.len(), 3);
    assert_eq!(out.updated_history[0].content, "earlier");
    assert_eq!(out.updated_history[1].role, "user");
    assert_eq!(out.updated_history[1].content, "please");
    assert_eq!(out.updated_history[2].role, "assistant");
    assert_eq!(out.updated_history[2].content, "Sure. [EMOTION:neutral]");
}

#[test]
fn server_args_are_the_fixed_serving_arguments() {
    let args = build_server_args("model.gguf".to_string());
    assert_eq!(
        args,
        vec![
            "-m", "model.gguf", "-ngl", "99", "-sm", "none", "-mg", "0", "--mmap", "--host",
            "127.0.0.1", "--port", "8080",
        ]
    );
}

#[test]
fn llama_server_lifecycle_and_status_text() {
    let mut server = LlamaServer::new();
    assert!(matches!(
        server.start_decide(Liveness::Exited),
        Err(ServiceError::NotConfigured)
    ));
    server
        .set_paths("llama-server".to_string(), "model.gguf".to_string())
        .expect("set paths");
    assert_eq!(server.get_status(Liveness::Exited), "stopped");

    assert!(server.start_decide(Liveness::Exited).is_ok());
    assert!(server.start_finish(SpawnOutcome::Spawned(31)).is_ok());
    assert_eq!(server.get_status(Liveness::Alive), "running");
    assert!(server.is_running(Liveness::Alive));

    // a start over the live server is rejected
    assert!(matches!(
        server.start_decide(Liveness::Alive),
        Err(ServiceError::AlreadyRunning)
    ));

    let pid = server.stop().expect("stop");
    assert_eq!(pid, 31);
    assert!(matches!(server.stop(), Err(ServiceError::NotRunning)));
    assert_eq!(server.get_status(Liveness::Exited), "stopped");

    let plan = LlamaServer::stop_plan(pid);
    assert_eq!(plan.len(), 1);
}
