//! The e-commerce merchant-application endpoint: the shapes a platform
//! partner submits to onboard a sub-merchant.

use vstd::prelude::*;

verus! {

/// The kind of organization applying.
#[derive(Debug, Clone, Copy, PartialEq, Eq, Structural)]
pub enum OrganizationType {
    /// A small micro merchant.
    SmallMicroMerchant,
    /// An individual seller.
    IndividualSeller,
    /// An individual business.
    IndividualBusiness,
    /// An enterprise.
    Enterprise,
    /// A public institution.
    Institution,
    /// A government agency.
    GovernmentAgency,
    /// A social organization.
    SocialOrganization,
}

/// The kind of registration certificate an institution holds.
#[derive(Debug, Clone, Copy, PartialEq, Eq, Structural)]
pub enum CertType {
    /// Legal-person certificate of a public institution.
    InstitutionLegalCertificate,
    /// Unified social credit code certificate.
    UnifiedSocialCreditCodeCertificate,
    /// Legal-person certificate of a social group.
    SocialGroupLegalCertificate,
    /// Registration certificate of a private non-enterprise unit.
    PrivateNonEnterpriseUnitCertificate,
    /// Legal-person certificate of a foundation.
    FoundationLegalCertificate,
    /// Registration certificate of a religious site.
    ReligiousActivityPlaceCertificate,
    /// A practicing license.
    PracticingLicense,
    /// Credit code certificate of a grassroots self-governing body.
    GrassrootsMassCertificate,
    /// Registration certificate of a rural collective.
    RuralCollectiveCertificate,
    /// Another certificate kind.
    Other,
}

/// The kind of financial institution applying.
#[derive(Debug, Clone, Copy, PartialEq, Eq, Structural)]
pub enum FinanceType {
    /// A bank agent.
    BankAgent,
    /// A payment agent.
    PaymentAgent,
    /// An insurance institution.
    Insurance,
    /// A trade-and-settle institution.
    TradeAndSettle,
    /// Another kind of financial institution.
    Other,
}

/// The licenses of a financial institution.
#[derive(Debug)]
pub struct FinanceInstitutionInfo {
    /// The kind of financial institution.
    pub finance_type: FinanceType,
    /// Media ids of the license pictures.
    pub finance_license_pics: Vec<String>,
}

/// The business license of the applying merchant.
#[derive(Debug)]
pub struct BusinessLicenseInfo {
    /// The kind of registration certificate, when not a license.
    pub cert_type: Option<CertType>,
    /// Media id of the license copy.
    pub business_license_copy: String,
    /// The license number.
    pub business_license_number: String,
    /// The registered merchant name.
    pub merchant_name: String,
    /// The legal person.
    pub legal_person: String,
    /// The registered address, when required.
    pub company_address: Option<String>,
    /// The license validity, when required.
    pub business_time: Option<String>,
}

/// Whose identity document is submitted.
#[derive(Debug, Clone, Copy, PartialEq, Eq, Structural)]
pub enum IdHolderType {
    /// The legal person's.
    Legal,
    /// A responsible person's.
    Super,
}

/// The kind of identity document.
#[derive(Debug, Clone, Copy, PartialEq, Eq, Structural)]
pub enum IdDocType {
    /// Mainland identity card.
    MainlandIdcard,
    /// Overseas passport.
    OverseaPassport,
    /// Hong Kong entry permit.
    Hongkong,
    /// Macao entry permit.
    Macao,
    /// Taiwan entry permit.
    Taiwan,
    /// Foreign resident permit.
    ForeignResident,
    /// Hong Kong or Macao resident permit.
    HongkongMacaoResident,
    /// Taiwan resident permit.
    TaiwanResident,
}

/// A mainland identity card.
#[derive(Debug)]
pub struct IdCardInfo {
    /// Media id of the portrait side.
    pub id_card_copy: String,
    /// Media id of the emblem side.
    pub id_card_national: String,
    /// The name on the card.
    pub id_card_name: String,
    /// The card number.
    pub id_card_number: String,
    /// The address on the card, when required.
    pub id_card_address: Option<String>,
    /// When the card became valid.
    pub id_card_valid_time_begin: String,
    /// When the card stops being valid.
    pub id_card_valid_time: String,
}

/// An identity document other than a mainland identity card.
#[derive(Debug)]
pub struct IdDocInfo {
    /// The name on the document.
    pub id_doc_name: String,
    /// The document number.
    pub id_doc_number: String,
    /// Media id of the front.
    pub id_doc_copy: String,
    /// Media id of the back, when the document has one.
    pub id_doc_copy_back: Option<String>,
    /// The address on the document, when required.
    pub id_doc_address: Option<String>,
    /// When the document became valid.
    pub doc_period_begin: String,
    /// When the document stops being valid.
    pub doc_period_end: String,
}

/// The kind of identity document of an ultimate beneficial owner.
#[derive(Debug, Clone, Copy, PartialEq, Eq, Structural)]
pub enum UboIdDocType {
    /// Mainland identity card.
    MainlandIdcard,
    /// Overseas passport.
    OverseaPassport,
    /// Hong Kong entry permit.
    Hongkong,
    /// Macao entry permit.
    Macao,
    /// Taiwan entry permit.
    Taiwan,
    /// Foreign resident permit.
    ForeignResident,
    /// Hong Kong or Macao resident permit.
    HongkongMacaoResident,
    /// Taiwan resident permit.
    TaiwanResident,
}

/// An ultimate beneficial owner.
#[derive(Debug)]
pub struct UboInfo {
    /// The kind of identity document.
    pub ubo_id_doc_type: Option<UboIdDocType>,
    /// Media id of the front.
    pub ubo_id_doc_copy: Option<String>,
    /// Media id of the back.
    pub ubo_id_doc_copy_back: Option<String>,
    /// The name on the document.
    pub ubo_id_doc_name: Option<String>,
    /// The document number.
    pub ubo_id_doc_number: Option<String>,
    /// The address on the document.
    pub ubo_id_doc_address: Option<String>,
    /// When the document became valid.
    pub ubo_id_doc_period_begin: Option<String>,
    /// When the document stops being valid.
    pub ubo_id_doc_period_end: Option<String>,
}

/// The settlement account of the applying merchant.
#[derive(Debug)]
pub struct AccountInfo {
    /// The account kind.
    pub account_type: String,
    /// The bank the account is with.
    pub account_bank: String,
    /// The name on the account.
    pub account_name: String,
    /// The area code of the bank.
    pub bank_address_code: String,
    /// The branch id, when required.
    pub bank_branch_id: Option<String>,
    /// The branch name, when required.
    pub bank_name: Option<String>,
    /// The account number.
    pub account_number: String,
}

/// The contact person of the application.
#[derive(Debug)]
pub struct ContactInfo {
    /// The contact kind.
    pub contact_type: String,
    /// The contact's name.
    pub contact_name: String,
    /// The kind of the contact's identity document.
    pub contact_id_doc_type: Option<IdDocType>,
    /// The contact's identity card number.
    pub contact_id_card_number: Option<String>,
    /// Media id of the document's front.
    pub contact_id_doc_copy: Option<String>,
    /// Media id of the document's back.
    pub contact_id_doc_copy_back: Option<String>,
    /// When the document became valid.
    pub contact_id_doc_period_begin: Option<String>,
    /// When the document stops being valid.
    pub contact_id_doc_period_end: Option<String>,
    /// Media id of the authorization letter, when required.
    pub business_authorization_letter: Option<String>,
    /// The contact's mobile phone.
    pub mobile_phone: String,
    /// The contact's email address.
    pub contact_email: Option<String>,
}

/// Where the merchant sells.
#[derive(Debug)]
pub struct SalesSceneInfo {
    /// The store name.
    pub store_name: String,
    /// The store's web address.
    pub store_url: Option<String>,
    /// Media id of the store's QR code.
    pub store_qr_code: Option<String>,
    /// The sub-application id of the merchant's mini program.
    pub mini_program_sub_appid: Option<String>,
}

/// The settlement plan of the application.
#[derive(Debug)]
pub struct SettlementInfo {
    /// The settlement plan id.
    pub settlement_id: i32,
    /// The qualification kind of the plan.
    pub qualification_type: String,
}

/// The body of a merchant application.
#[derive(Debug)]
pub struct MerchantApplyInfo {
    /// The partner's own number for this application.
    pub out_request_no: String,
    /// The kind of organization applying.
    pub organization_type: OrganizationType,
    /// Whether the applicant is a financial institution.
    pub finance_institution: bool,
    /// The business license, when the organization kind requires it.
    pub business_license_info: Option<BusinessLicenseInfo>,
    /// The licenses of a financial institution.
    pub finance_institution_info: Option<FinanceInstitutionInfo>,
    /// Whose identity document is submitted.
    pub id_holder_type: Option<IdHolderType>,
    /// The kind of identity document.
    pub id_doc_type: IdDocType,
    /// Media id of the authorization letter, when required.
    pub authorize_letter_copy: Option<String>,
    /// The identity card, when that is the document kind.
    pub id_card_info: Option<IdCardInfo>,
    /// The identity document, for the other kinds.
    pub id_doc_info: Option<IdDocInfo>,
    /// Whether the holder is an ultimate beneficial owner.
    pub owner: Option<bool>,
    /// The ultimate beneficial owners, when they must be listed.
    pub ubo_info_list: Option<Vec<UboInfo>>,
    /// The settlement account.
    pub account_info: AccountInfo,
    /// The contact person.
    pub contact_info: ContactInfo,
    /// Where the merchant sells.
    pub sales_scene_info: SalesSceneInfo,
    /// The settlement plan, when named.
    pub settlement_info: Option<SettlementInfo>,
    /// The short merchant name shown to payers.
    pub merchant_shortname: String,
    /// Media ids of qualification pictures.
    pub qualifications: Option<String>,
    /// Media ids of additional business pictures.
    pub business_addition_pics: Option<String>,
    /// Additional notes on the business.
    pub business_addition_desc: Option<String>,
}

/// The response of the merchant-application endpoint.
#[derive(Debug)]
pub struct MerchantApplyResponse {
    /// The platform's id for the application.
    pub applyment_id: String,
    /// The partner's own number, echoed back.
    pub out_request_no: String,
}

} // verus!
