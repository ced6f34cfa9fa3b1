//! The records of the directory and their mathematical views.

use vstd::prelude::*;

verus! {

/// Postal address of a user.
#[derive(Debug, PartialEq, Eq)]
pub struct Address {
    pub street: String,
    pub suite: String,
    pub city: String,
    pub zipcode: String,
}

/// View of an [`Address`]: each field as a sequence of characters.
#[verifier::ext_equal]
pub struct AddressView {
    pub street: Seq<char>,
    pub suite: Seq<char>,
    pub city: Seq<char>,
    pub zipcode: Seq<char>,
}

impl View for Address {
    type V = AddressView;

    open spec fn view(&self) -> AddressView {
        AddressView {
            street: self.street@,
            suite: self.suite@,
            city: self.city@,
            zipcode: self.zipcode@,
        }
    }
}

impl Clone for Address {
    fn clone(&self) -> (copy: Self)
        ensures
            copy == *self,
    {
        Address {
            street: self.street.clone(),
            suite: self.suite.clone(),
            city: self.city.clone(),
            zipcode: self.zipcode.clone(),
        }
    }
}

/// Company that a user works for.
#[derive(Debug, PartialEq, Eq)]
pub struct Company {
    pub name: String,
    pub catch_phrase: String,
    pub business_slogan: String,
}

/// View of a [`Company`].
#[verifier::ext_equal]
pub struct CompanyView {
    pub name: Seq<char>,
    pub catch_phrase: Seq<char>,
    pub business_slogan: Seq<char>,
}

impl View for Company {
    type V = CompanyView;

    open spec fn view(&self) -> CompanyView {
        CompanyView {
            name: self.name@,
            catch_phrase: self.catch_phrase@,
            business_slogan: self.business_slogan@,
        }
    }
}

impl Clone for Company {
    fn clone(&self) -> (copy: Self)
        ensures
            copy == *self,
    {
        Company {
            name: self.name.clone(),
            catch_phrase: self.catch_phrase.clone(),
            business_slogan: self.business_slogan.clone(),
        }
    }
}

/// One entry of the directory, as a fetch delivers it.
#[derive(Debug, PartialEq, Eq)]
pub struct User {
    pub id: i32,
    pub name: String,
    pub username: String,
    pub email: String,
    pub phone: String,
    pub website: String,
    pub address: Address,
    pub company: Company,
}

/// View of a [`User`].
#[verifier::ext_equal]
pub struct UserView {
    pub id: int,
    pub name: Seq<char>,
    pub username: Seq<char>,
    pub email: Seq<char>,
    pub phone: Seq<char>,
    pub website: Seq<char>,
    pub address: AddressView,
    pub company: CompanyView,
}

impl View for User {
    type V = UserView;

    open spec fn view(&self) -> UserView {
        UserView {
            id: self.id as int,
            name: self.name@,
            username: self.username@,
            email: self.email@,
            phone: self.phone@,
            website: self.website@,
            address: self.address@,
            company: self.company@,
        }
    }
}

impl Clone for User {
    fn clone(&self) -> (copy: Self)
        ensures
            copy == *self,
    {
        User {
            id: self.id,
            name: self.name.clone(),
            username: self.username.clone(),
            email: self.email.clone(),
            phone: self.phone.clone(),
            website: self.website.clone(),
            address: self.address.clone(),
            company: self.company.clone(),
        }
    }
}

/// The views of a sequence of records, in the same order.
pub open spec fn views(records: Seq<User>) -> Seq<UserView> {
    records.map_values(|user: User| user@)
}

} // verus!
