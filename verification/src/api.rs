//! The operations that both protocol front ends expose.

use vstd::prelude::*;

verus! {

/// One operation of the public interface.
#[derive(Debug, Clone, Copy, PartialEq, Eq, Structural)]
pub enum Operation {
    Register,
    Login,
    CreatePost,
    GetPost,
    UpdatePost,
    DeletePost,
    GetPosts,
}

/// The request methods of the text protocol.
#[derive(Debug, Clone, Copy, PartialEq, Eq, Structural)]
pub enum Method {
    Get,
    Post,
    Put,
    Delete,
}

impl Operation {
    /// The request method under which the text protocol offers the
    /// operation.
    pub open spec fn spec_method(&self) -> Method {
        match self {
            Operation::Register => Method::Post,
            Operation::Login => Method::Post,
            Operation::CreatePost => Method::Post,
            Operation::GetPost => Method::Get,
            Operation::UpdatePost => Method::Put,
            Operation::DeletePost => Method::Delete,
            Operation::GetPosts => Method::Get,
        }
    }

    /// The request method under which the text protocol offers the
    /// operation.
    #[verifier::when_used_as_spec(spec_method)]
    pub fn method(&self) -> (method: Method)
        ensures
            method == self.spec_method(),
    {
        match self {
            Operation::Register => Method::Post,
            Operation::Login => Method::Post,
            Operation::CreatePost => Method::Post,
            Operation::GetPost => Method::Get,
            Operation::UpdatePost => Method::Put,
            Operation::DeletePost => Method::Delete,
            Operation::GetPosts => Method::Get,
        }
    }

    /// The path under which the text protocol offers the operation, with
    /// `{id}` where the id of a post goes.
    pub fn path(&self) -> (path: &'static str)
        ensures
            path@ == (match self {
                Operation::Register => "/auth/register"@,
                Operation::Login => "/auth/login"@,
                Operation::CreatePost => "/posts"@,
                Operation::GetPost => "/posts/{id}"@,
                Operation::UpdatePost => "/posts/{id}"@,
                Operation::DeletePost => "/posts/{id}"@,
                Operation::GetPosts => "/posts"@,
            }),
    {
        match self {
            Operation::Register => "/auth/register",
            Operation::Login => "/auth/login",
            Operation::CreatePost => "/posts",
            Operation::GetPost => "/posts/{id}",
            Operation::UpdatePost => "/posts/{id}",
            Operation::DeletePost => "/posts/{id}",
            Operation::GetPosts => "/posts",
        }
    }

    /// The name of the method under which the RPC protocol offers the
    /// operation.
    pub fn rpc_name(&self) -> (name: &'static str)
        ensures
            name@ == (match self {
                Operation::Register => "Register"@,
                Operation::Login => "Login"@,
                Operation::CreatePost => "CreatePost"@,
                Operation::GetPost => "GetPost"@,
                Operation::UpdatePost => "UpdatePost"@,
                Operation::DeletePost => "DeletePost"@,
                Operation::GetPosts => "GetPosts"@,
            }),
    {
        match self {
            Operation::Register => "Register",
            Operation::Login => "Login",
            Operation::CreatePost => "CreatePost",
            Operation::GetPost => "GetPost",
            Operation::UpdatePost => "UpdatePost",
            Operation::DeletePost => "DeletePost",
            Operation::GetPosts => "GetPosts",
        }
    }

    /// Whether the operation acts on behalf of an account and therefore
    /// needs a valid bearer token: creating, updating and deleting a post.
    pub open spec fn spec_requires_auth(&self) -> bool {
        matches!(self, Operation::CreatePost | Operation::UpdatePost | Operation::DeletePost)
    }

    /// Whether the operation acts on behalf of an account and therefore
    /// needs a valid bearer token: creating, updating and deleting a post.
    #[verifier::when_used_as_spec(spec_requires_auth)]
    pub fn requires_auth(&self) -> (needed: bool)
        ensures
            needed == self.spec_requires_auth(),
    {
        matches!(self, Operation::CreatePost | Operation::UpdatePost | Operation::DeletePost)
    }

    /// The status with which the text protocol answers a successful call:
    /// 201 where something was created, 204 for a deletion, 200 otherwise.
    pub open spec fn spec_success_status(&self) -> u16 {
        match self {
            Operation::Register => 201,
            Operation::Login => 200,
            Operation::CreatePost => 201,
            Operation::GetPost => 200,
            Operation::UpdatePost => 200,
            Operation::DeletePost => 204,
            Operation::GetPosts => 200,
        }
    }

    /// The status with which the text protocol answers a successful call:
    /// 201 where something was created, 204 for a deletion, 200 otherwise.
    #[verifier::when_used_as_spec(spec_success_status)]
    pub fn success_status(&self) -> (status: u16)
        ensures
            status == self.spec_success_status(),
    {
        match self {
            Operation::Register => 201,
            Operation::Login => 200,
            Operation::CreatePost => 201,
            Operation::GetPost => 200,
            Operation::UpdatePost => 200,
            Operation::DeletePost => 204,
            Operation::GetPosts => 200,
        }
    }
}

} // verus!
