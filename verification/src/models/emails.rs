use vstd::prelude::*;

verus! {

/// One address a mail is sent from or to.
pub struct EmailAddress {
    pub email: String,
}

/// The fields the mail template is filled with.
pub struct PersonalizationData {
    pub body: String,
    pub name: String,
    pub email: String,
    pub phone: String,
    pub subject: String,
}

/// One recipient's template data.
pub struct PersonalizationEntry {
    pub email: String,
    pub data: PersonalizationDataWrapper,
}

/// The envelope the mail service wants the template data in.
pub struct PersonalizationDataWrapper {
    pub data: PersonalizationData,
}

/// One outgoing mail, shaped for the mail service.
pub struct EmailRequest {
    pub from: EmailAddress,
    pub to: Vec<EmailAddress>,
    pub personalization: Vec<PersonalizationEntry>,
    pub template_id: String,
}

/// What the contact form hands over for one mail.
#[derive(Debug)]
pub struct EmailCreate {
    pub subject: String,
    pub email: String,
    pub phone: String,
    pub body: String,
    pub ip_address: String,
}

} // verus!
