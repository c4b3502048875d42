//! The screens the presentation layer can show, and the forms two of them
//! carry.

use crate::forms::{Form, FormField, Validation};
use vstd::prelude::*;

verus! {

/// Where the user currently is. The two form screens own the form being
/// filled in; the details screen names the account being shown.
#[derive(Clone, Debug)]
pub enum Screen {
    MainMenu,
    CustomerList,
    NewCustomer(Form),
    NewAccount(Form),
    AccountList,
    AccountDetails(u64),
    Transfer,
}

/// The form behind the "new customer" screen: name, address, phone and email,
/// all required, the phone restricted to digits and dashes and the email
/// required to carry an at sign.
pub fn create_customer_form() -> (r: Form)
    ensures
        r.wf(),
        r.title@ == "Create New Customer"@,
        r.focused_field == 0,
        r.fields@.len() == 4,
        r.fields@[0].label@ == "Name"@ && r.fields@[0].required && r.fields@[0].max_length == 50
            && r.fields@[0].validation == Validation::Any,
        r.fields@[1].label@ == "Address"@ && r.fields@[1].required && r.fields@[1].max_length == 100
            && r.fields@[1].validation == Validation::Any,
        r.fields@[2].label@ == "Phone"@ && r.fields@[2].required && r.fields@[2].max_length == 20
            && r.fields@[2].validation == Validation::PhoneChars,
        r.fields@[3].label@ == "Email"@ && r.fields@[3].required && r.fields@[3].max_length == 50
            && r.fields@[3].validation == Validation::ContainsAt,
        forall|i: int| 0 <= i < 4 ==> (#[trigger] r.fields@[i]).value@ =~= Seq::<char>::empty(),
{
    let mut fields: Vec<FormField> = Vec::new();
    fields.push(FormField::new("Name", true, 50));
    fields.push(FormField::new("Address", true, 100));
    fields.push(FormField::new("Phone", true, 20).with_validation(Validation::PhoneChars));
    fields.push(FormField::new("Email", true, 50).with_validation(Validation::ContainsAt));
    Form::new("Create New Customer", fields)
}

/// The form behind the "new account" screen: the owning customer's id (a
/// decimal number) and the account type, both required.
pub fn create_account_form() -> (r: Form)
    ensures
        r.wf(),
        r.title@ == "Create New Account"@,
        r.focused_field == 0,
        r.fields@.len() == 2,
        r.fields@[0].label@ == "Customer ID"@ && r.fields@[0].required && r.fields@[0].max_length
            == 20 && r.fields@[0].validation == Validation::Uint,
        r.fields@[1].label@ == "Account Type"@ && r.fields@[1].required && r.fields@[1].max_length
            == 20 && r.fields@[1].validation == Validation::Any,
        forall|i: int| 0 <= i < 2 ==> (#[trigger] r.fields@[i]).value@ =~= Seq::<char>::empty(),
{
    let mut fields: Vec<FormField> = Vec::new();
    fields.push(FormField::new("Customer ID", true, 20).with_validation(Validation::Uint));
    fields.push(FormField::new("Account Type", true, 20));
    Form::new("Create New Account", fields)
}

} // verus!
