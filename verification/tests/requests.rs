use bytes::Bytes;
use h2::server::SendResponse;
use h2::{client, SendStream};
use http::{Request, Response};
use std::sync::atomic::{AtomicBool, Ordering};
use std::sync::Arc;
use ztunnel_h2::server::{
    error_sent, handshake_builder, stream_opened, Config, H2Request, ProxyError, RequestParts,
};

type Accepted = H2Request<SendResponse<Bytes>>;

fn head(
    mut send: SendResponse<Bytes>,
    resp: Response<()>,
    end: bool,
) -> Result<SendStream<Bytes>, h2::Error> {
    send.send_response(resp, end)
}

/// Runs a client against a server that hands its one request to `serve`. Returns the status that
/// the client sees, whether the response has ended with its head, and its body. Fails where
/// `serve` has not run to its end.
fn exchange(serve: fn(Accepted)) -> Result<(u16, bool, Vec<u8>), h2::Error> {
    let rt = tokio::runtime::Builder::new_current_thread().enable_all().build().unwrap();
    let served = Arc::new(AtomicBool::new(false));
    let to_serve = served.clone();
    let seen = rt.block_on(async {
        let (near, far) = tokio::io::duplex(65536);
        tokio::spawn(async move {
            let cfg =
                Config { window_size: 65535, connection_window_size: 65535, frame_size: 16384 };
            let mut conn: h2::server::Connection<_, Bytes> =
                handshake_builder(&cfg).handshake(far).await.unwrap();
            while let Some(accepted) = conn.accept().await {
                let (request, send) = accepted.unwrap();
                serve(H2Request::new(request, send));
                to_serve.store(true, Ordering::SeqCst);
            }
        });
        let (send_request, conn) = client::handshake(near).await?;
        tokio::spawn(async move {
            let _ = conn.await;
        });
        let mut ready = send_request.ready().await?;
        let request = Request::builder()
            .method("PUT")
            .uri("https://example.com/path?q=1")
            .header("x-test", "yes")
            .body(())
            .unwrap();
        let (response, _) = ready.send_request(request, true)?;
        let response = response.await?;
        let status = response.status().as_u16();
        let mut body = response.into_body();
        let ended = body.is_end_stream();
        let mut all = vec![];
        while let Some(chunk) = body.data().await {
            all.extend_from_slice(&chunk?);
        }
        Ok((status, ended, all))
    });
    assert!(served.load(Ordering::SeqCst));
    seen
}

fn status(code: u16) -> Response<()> {
    Response::builder().status(code).body(()).unwrap()
}

#[test]
fn error_response_ends_the_stream() {
    let seen = exchange(|req| {
        assert!(req.send_error(status(403), head).is_ok());
    });
    assert_eq!(seen.unwrap(), (403, true, vec![]));
}

#[test]
fn response_leaves_the_stream_open() {
    let seen = exchange(|req| {
        let mut stream = req.send_response::<(), _>(status(200), head).ok().unwrap();
        assert!(stream.read.dropped.is_none());
        assert!(stream.write.dropped.is_none());
        assert!(stream.read.recv_stream.is_end_stream());
        stream.write.send_stream.send_data(Bytes::from_static(b"hello"), true).unwrap();
    });
    assert_eq!(seen.unwrap(), (200, false, b"hello".to_vec()));
}

#[test]
fn request_head_is_kept() {
    let seen = exchange(|req| {
        assert_eq!(req.get_request().uri().to_string(), "https://example.com/path?q=1");
        assert_eq!(req.get_request().method().as_str(), "PUT");
        assert_eq!(req.get_request().headers().get("x-test").unwrap(), "yes");
        assert_eq!(req.headers().get("x-test").unwrap(), "yes");
        assert_eq!(req.headers().len(), 1);
        assert!(req.send_error(status(204), head).is_ok());
    });
    assert_eq!(seen.unwrap().0, 204);
}

#[test]
fn what_is_handed_to_http2() {
    let seen = exchange(|req| {
        let result = req.send_error(status(418), |send, resp, end| {
            assert_eq!(resp.status().as_u16(), 418);
            assert!(end);
            head(send, resp, end)
        });
        assert!(result.is_ok());
    });
    assert_eq!(seen.unwrap().0, 418);
}

#[test]
fn refused_error_response() {
    let seen = exchange(|req| {
        let result = req.send_error(status(500), |_, _, _| Err(h2::Error::from(h2::Reason::CANCEL)));
        match result {
            Err(ProxyError::H2(e)) => assert_eq!(e.reason(), Some(h2::Reason::CANCEL)),
            _ => panic!("expected the error"),
        }
    });
    // The request is dropped unanswered, which resets its stream.
    assert!(seen.is_err());
}

#[test]
fn refused_response() {
    let seen = exchange(|req| {
        let result = req.send_response::<(), _>(status(200), |_, _, end| {
            assert!(!end);
            Err(h2::Error::from(h2::Reason::REFUSED_STREAM))
        });
        match result {
            Err(ProxyError::H2(e)) => assert_eq!(e.reason(), Some(h2::Reason::REFUSED_STREAM)),
            _ => panic!("expected the error"),
        }
    });
    assert!(seen.is_err());
}

#[test]
fn outcomes_of_an_answer() {
    let refused = error_sent(Err(h2::Error::from(h2::Reason::STREAM_CLOSED)));
    match refused {
        Err(ProxyError::H2(e)) => assert_eq!(e.reason(), Some(h2::Reason::STREAM_CLOSED)),
        _ => panic!("expected the error"),
    }
    let seen = exchange(|req| {
        let H2Request { recv, .. } = req;
        let refused = stream_opened::<()>(recv, Err(h2::Error::from(h2::Reason::CONNECT_ERROR)));
        match refused {
            Err(ProxyError::H2(e)) => assert_eq!(e.reason(), Some(h2::Reason::CONNECT_ERROR)),
            _ => panic!("expected the error"),
        }
    });
    assert!(seen.is_err());
}
