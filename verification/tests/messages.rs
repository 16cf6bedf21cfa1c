use cryptix_miner::messages::{
    CryptixdMessage, GetBlockTemplateRequestMessage, GetInfoRequestMessage,
    NotifyBlockAddedRequestMessage, NotifyNewBlockTemplateRequestMessage, Payload, RpcBlock,
    SubmitBlockRequestMessage,
};

#[test]
fn request_constructors() {
    assert_eq!(
        CryptixdMessage::get_info_request(),
        CryptixdMessage { payload: Some(Payload::GetInfoRequest(GetInfoRequestMessage {})) }
    );
    assert_eq!(
        CryptixdMessage::notify_block_added(),
        CryptixdMessage { payload: Some(Payload::NotifyBlockAddedRequest(NotifyBlockAddedRequestMessage {})) }
    );
}

#[test]
fn submit_block_refuses_non_daa_blocks() {
    let block = RpcBlock { header: None };
    assert_eq!(
        CryptixdMessage::submit_block(block.clone()),
        CryptixdMessage {
            payload: Some(Payload::SubmitBlockRequest(SubmitBlockRequestMessage {
                block: Some(block),
                allow_non_daa_blocks: false,
            })),
        }
    );
}

#[test]
fn conversions_wrap_the_request() {
    assert_eq!(CryptixdMessage::from(GetInfoRequestMessage {}), CryptixdMessage::get_info_request());
    assert_eq!(CryptixdMessage::from(NotifyBlockAddedRequestMessage {}), CryptixdMessage::notify_block_added());
    let t = GetBlockTemplateRequestMessage { pay_address: String::from("cryptix:x"), extra_data: String::new() };
    assert_eq!(
        CryptixdMessage::from(t.clone()),
        CryptixdMessage { payload: Some(Payload::GetBlockTemplateRequest(t)) }
    );
    assert_eq!(
        CryptixdMessage::from(NotifyNewBlockTemplateRequestMessage {}),
        CryptixdMessage { payload: Some(Payload::NotifyNewBlockTemplateRequest(NotifyNewBlockTemplateRequestMessage {})) }
    );
}
