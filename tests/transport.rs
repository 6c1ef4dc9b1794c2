use smart_house::error::RecvError;
use smart_house::frame::{decode_length, decode_payload, encode_frame, encode_length};
use smart_house::handshake::{answer_greeting, check_reply, protocol_version};
use tokio::io::{duplex, AsyncReadExt, AsyncWriteExt, DuplexStream};

fn runtime() -> tokio::runtime::Runtime {
    tokio::runtime::Builder::new_multi_thread()
        .worker_threads(4)
        .enable_all()
        .build()
        .unwrap()
}

async fn read_frame(stream: &mut DuplexStream) -> Result<String, RecvError> {
    let mut header = [0; 4];
    stream.read_exact(&mut header).await.map_err(RecvError::Io)?;
    let mut payload = vec![0; decode_length(header) as usize];
    stream.read_exact(&mut payload).await.map_err(RecvError::Io)?;
    decode_payload(payload)
}

async fn serve(mut stream: DuplexStream) {
    let mut greeting = [0; 4];
    stream.read_exact(&mut greeting).await.unwrap();
    let reply = answer_greeting(protocol_version(), greeting).unwrap();
    stream.write_all(&reply).await.unwrap();
    while let Ok(request) = read_frame(&mut stream).await {
        let answer = format!("answer to {request}");
        stream.write_all(&encode_frame(&answer)).await.unwrap();
    }
}

#[test]
fn concurrent_clients_get_their_own_answers() {
    runtime().block_on(async {
        let mut clients = Vec::new();
        for i in 0..8 {
            let (mut stream, server_end) = duplex(64);
            tokio::spawn(serve(server_end));
            clients.push(tokio::spawn(async move {
                let own = protocol_version();
                stream.write_all(&own).await.unwrap();
                let mut reply = [0; 4];
                stream.read_exact(&mut reply).await.unwrap();
                check_reply(own, reply).unwrap();
                let request = format!("client {i}");
                stream.write_all(&encode_frame(&request)).await.unwrap();
                (request, read_frame(&mut stream).await.unwrap())
            }));
        }
        for client in clients {
            let (request, answer) = client.await.unwrap();
            assert_eq!(answer, format!("answer to {request}"));
        }
    });
}

#[test]
fn stream_closed_inside_frame_is_io_error() {
    runtime().block_on(async {
        let (mut writer, mut reader) = duplex(64);
        writer.write_all(&encode_length(10)).await.unwrap();
        writer.write_all(b"abc").await.unwrap();
        drop(writer);
        assert!(matches!(read_frame(&mut reader).await, Err(RecvError::Io(_))));
    });
}
