use wechat_pay::sdk::partner::{
    AccountInfo, ContactInfo, IdCardInfo, IdDocType, MerchantApplyInfo, OrganizationType,
    SalesSceneInfo,
};

#[test]
fn est_merchant_apply() {
    let req = MerchantApplyInfo {
        out_request_no: "APPLYMENT_00000000001".to_string(),
        organization_type: OrganizationType::SmallMicroMerchant,
        finance_institution: false,
        business_license_info: None,
        finance_institution_info: None,
        id_holder_type: None,
        id_doc_type: IdDocType::MainlandIdcard,
        authorize_letter_copy: None,
        id_card_info: Some(IdCardInfo {
            id_card_copy: "szf0".to_string(),
            id_card_national: "sfz1".to_string(),
            id_card_name: "name".to_string(),
            id_card_number: "number".to_string(),
            id_card_address: None,
            id_card_valid_time_begin: "begin_time".to_string(),
            id_card_valid_time: "valid_time".to_string(),
        }),
        id_doc_info: None,
        owner: None,
        ubo_info_list: None,
        account_info: AccountInfo {
            account_type: "75".to_string(),
            account_bank: "工商银行".to_string(),
            account_name: "name".to_string(),
            bank_address_code: "110000".to_string(),
            bank_branch_id: None,
            bank_name: None,
            account_number: "account_number".to_string(),
        },
        contact_info: ContactInfo {
            contact_type: "65".to_string(),
            contact_name: "name".to_string(),
            contact_id_doc_type: None,
            contact_id_card_number: None,
            contact_id_doc_copy: None,
            contact_id_doc_copy_back: None,
            contact_id_doc_period_begin: None,
            contact_id_doc_period_end: None,
            business_authorization_letter: None,
            mobile_phone: "phone".to_string(),
            contact_email: None,
        },
        sales_scene_info: SalesSceneInfo {
            store_name: "store_name".to_string(),
            store_url: None,
            store_qr_code: Some("qr_code".to_string()),
            mini_program_sub_appid: None,
        },
        settlement_info: None,
        merchant_shortname: "shortname".to_string(),
        qualifications: None,
        business_addition_pics: None,
        business_addition_desc: None,
    };
    println!("{:#?}", req);
}
