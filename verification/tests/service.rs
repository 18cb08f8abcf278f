use duplex_rpc::client::HelloClient;
use duplex_rpc::service::{
    serve, try_serve, HelloWorld, HelloWorldRequest, HelloWorldResponse, HelloWorldServer,
    HELLOWORLD_ALPN,
};
use tarpc::context;

#[test]
fn protocol_identifier_is_the_service_name() {
    assert_eq!(HELLOWORLD_ALPN.len(), 15);
    assert_eq!(&HELLOWORLD_ALPN[..], &b"HELLOWORLD_ALPN"[..]);
}

#[test]
fn new_server_has_answered_nothing() {
    let server = HelloWorldServer::new();
    assert_eq!(server.amount_responses(context::current()), 0);
}

#[test]
fn hello_greets_the_caller() {
    let mut server = HelloWorldServer::new();
    assert_eq!(server.hello(context::current(), "X".to_string()), "Hello X");
}

#[test]
fn hello_keeps_the_name_as_given() {
    let mut server = HelloWorldServer::new();
    assert_eq!(server.hello(context::current(), String::new()), "Hello ");
    assert_eq!(
        server.hello(context::current(), "Hot stuff".to_string()),
        "Hello Hot stuff"
    );
    assert_eq!(
        server.hello(context::current(), " wörld\n".to_string()),
        "Hello  wörld\n"
    );
}

#[test]
fn one_hello_is_counted_once() {
    let mut server = HelloWorldServer::new();
    assert_eq!(server.hello(context::current(), "X".to_string()), "Hello X");
    assert_eq!(server.amount_responses(context::current()), 1);
}

#[test]
fn asking_for_the_amount_is_not_counted() {
    let mut server = HelloWorldServer::new();
    server.hello(context::current(), "X".to_string());
    assert_eq!(server.amount_responses(context::current()), 1);
    assert_eq!(server.amount_responses(context::current()), 1);
}

#[test]
fn two_hellos_count_two_in_either_order() {
    let mut first = HelloWorldServer::new();
    let a = first.hello(context::current(), "A".to_string());
    let b = first.hello(context::current(), "B".to_string());
    assert_eq!((a.as_str(), b.as_str()), ("Hello A", "Hello B"));
    assert_eq!(first.amount_responses(context::current()), 2);

    let mut second = HelloWorldServer::new();
    let b = second.hello(context::current(), "B".to_string());
    let a = second.hello(context::current(), "A".to_string());
    assert_eq!((a.as_str(), b.as_str()), ("Hello A", "Hello B"));
    assert_eq!(second.amount_responses(context::current()), 2);
}

#[test]
fn amount_equals_completed_hellos() {
    let mut server = HelloWorldServer::new();
    let mut done: usize = 0;
    while done < 50 {
        assert_eq!(server.amount_responses(context::current()), done);
        server.hello(context::current(), format!("caller {done}"));
        done += 1;
    }
    assert_eq!(server.amount_responses(context::current()), 50);
}

#[test]
fn serve_answers_hello_with_the_greeting() {
    let mut server = HelloWorldServer::new();
    let response = serve(
        &mut server,
        context::current(),
        HelloWorldRequest::Hello {
            who: "X".to_string(),
        },
    );
    assert_eq!(response, HelloWorldResponse::Hello("Hello X".to_string()));
    assert_eq!(server.amount_responses(context::current()), 1);
}

#[test]
fn serve_answers_amount_with_the_count() {
    let mut server = HelloWorldServer::new();
    let response = serve(
        &mut server,
        context::current(),
        HelloWorldRequest::AmountResponses {},
    );
    assert_eq!(response, HelloWorldResponse::AmountResponses(0));
    server.hello(context::current(), "X".to_string());
    server.hello(context::current(), "Y".to_string());
    let response = serve(
        &mut server,
        context::current(),
        HelloWorldRequest::AmountResponses {},
    );
    assert_eq!(response, HelloWorldResponse::AmountResponses(2));
    assert_eq!(server.amount_responses(context::current()), 2);
}

#[test]
fn client_frames_each_call_as_its_request() {
    let client = HelloClient::new();
    assert_eq!(
        client.hello("X".to_string()),
        HelloWorldRequest::Hello {
            who: "X".to_string()
        }
    );
    assert_eq!(
        client.amount_responses(),
        HelloWorldRequest::AmountResponses {}
    );
}

#[test]
fn client_reads_only_the_response_of_its_method() {
    let client = HelloClient::new();
    assert_eq!(
        client.hello_result(HelloWorldResponse::Hello("Hello X".to_string())),
        Some("Hello X".to_string())
    );
    assert_eq!(
        client.hello_result(HelloWorldResponse::AmountResponses(3)),
        None
    );
    assert_eq!(
        client.amount_responses_result(HelloWorldResponse::AmountResponses(3)),
        Some(3)
    );
    assert_eq!(
        client.amount_responses_result(HelloWorldResponse::Hello("Hello X".to_string())),
        None
    );
}

#[test]
fn calls_through_the_client_get_their_own_answers() {
    let client = HelloClient::new();
    let mut server = HelloWorldServer::new();

    let hello = serve(&mut server, context::current(), client.hello("X".to_string()));
    assert_eq!(client.hello_result(hello), Some("Hello X".to_string()));

    let amount = serve(&mut server, context::current(), client.amount_responses());
    assert_eq!(client.amount_responses_result(amount), Some(1));
}

#[test]
fn interleaved_calls_do_not_mix_their_answers() {
    let client = HelloClient::new();
    let names = ["ada", "bob", "cy", "dee"];
    let orders: [[usize; 4]; 4] = [[0, 1, 2, 3], [3, 2, 1, 0], [2, 0, 3, 1], [1, 3, 0, 2]];
    for order in orders {
        let mut server = HelloWorldServer::new();
        let mut replies: Vec<Option<String>> = vec![None, None, None, None];
        for turn in order {
            let response = serve(
                &mut server,
                context::current(),
                client.hello(names[turn].to_string()),
            );
            replies[turn] = client.hello_result(response);
        }
        assert_eq!(
            replies,
            vec![
                Some("Hello ada".to_string()),
                Some("Hello bob".to_string()),
                Some("Hello cy".to_string()),
                Some("Hello dee".to_string()),
            ]
        );
        let amount = serve(&mut server, context::current(), client.amount_responses());
        assert_eq!(client.amount_responses_result(amount), Some(4));
    }
}

#[test]
fn try_serve_answers_like_serve_while_there_is_room() {
    let mut server = HelloWorldServer::new();
    let response = try_serve(
        &mut server,
        context::current(),
        HelloWorldRequest::Hello {
            who: "X".to_string(),
        },
    );
    assert_eq!(
        response,
        Some(HelloWorldResponse::Hello("Hello X".to_string()))
    );
    let response = try_serve(
        &mut server,
        context::current(),
        HelloWorldRequest::AmountResponses {},
    );
    assert_eq!(response, Some(HelloWorldResponse::AmountResponses(1)));
    assert_eq!(server.amount_responses(context::current()), 1);
}
