//! A chain of three services, each of which asks of the context only what it
//! uses: the outer one pushes an item, the middle one takes it out and pushes
//! another, the inner one reads that.
use futures::future::{ok, Future};
use hyper::server::{NewService, Service};
use hyper::{Error, Method, Request, Response, Uri};
use std::io;
use std::marker::PhantomData;
use std::str::FromStr;
use swagger::{Has, Pop, Push};

struct ContextItem1;
struct ContextItem2;

fn do_something_with_item_1(_: &ContextItem1) {}
fn do_something_with_item_2(_: &ContextItem2) {}

struct InnerService<C>
where
    C: Has<ContextItem2>,
{
    marker: PhantomData<C>,
}

impl<C> Service for InnerService<C>
where
    C: Has<ContextItem2>,
{
    type Request = (Request, C);
    type Response = Response;
    type Error = Error;
    type Future = Box<dyn Future<Item = Response, Error = Error>>;
    fn call(&self, (_, context): Self::Request) -> Self::Future {
        do_something_with_item_2(Has::<ContextItem2>::get(&context));
        Box::new(ok(Response::new()))
    }
}

struct InnerNewService<C>
where
    C: Has<ContextItem2>,
{
    marker: PhantomData<C>,
}

impl<C> InnerNewService<C>
where
    C: Has<ContextItem2>,
{
    fn new() -> Self {
        InnerNewService { marker: PhantomData }
    }
}

impl<C> NewService for InnerNewService<C>
where
    C: Has<ContextItem2>,
{
    type Request = (Request, C);
    type Response = Response;
    type Error = Error;
    type Instance = InnerService<C>;
    fn new_service(&self) -> Result<Self::Instance, io::Error> {
        Ok(InnerService { marker: PhantomData })
    }
}

struct MiddleService<T, C>
where
    C: Pop<ContextItem1>,
    C::Result: Push<ContextItem2>,
    T: Service<Request = (Request, <C::Result as Push<ContextItem2>>::Result)>,
{
    inner: T,
    marker1: PhantomData<C>,
}

impl<T, C> Service for MiddleService<T, C>
where
    C: Pop<ContextItem1>,
    C::Result: Push<ContextItem2>,
    T: Service<Request = (Request, <C::Result as Push<ContextItem2>>::Result)>,
{
    type Request = (Request, C);
    type Response = T::Response;
    type Error = T::Error;
    type Future = T::Future;
    fn call(&self, (req, context): Self::Request) -> Self::Future {
        let (item, context) = context.pop();
        do_something_with_item_1(&item);
        let context = context.push(ContextItem2 {});
        self.inner.call((req, context))
    }
}

struct MiddleNewService<T, C>
where
    C: Pop<ContextItem1>,
    C::Result: Push<ContextItem2>,
    T: NewService<Request = (Request, <C::Result as Push<ContextItem2>>::Result)>,
{
    inner: T,
    marker1: PhantomData<C>,
}

impl<T, C> NewService for MiddleNewService<T, C>
where
    C: Pop<ContextItem1>,
    C::Result: Push<ContextItem2>,
    T: NewService<Request = (Request, <C::Result as Push<ContextItem2>>::Result)>,
{
    type Request = (Request, C);
    type Response = T::Response;
    type Error = T::Error;
    type Instance = MiddleService<T::Instance, C>;
    fn new_service(&self) -> Result<Self::Instance, io::Error> {
        self.inner.new_service().map(|s| MiddleService {
            inner: s,
            marker1: PhantomData,
        })
    }
}

impl<T, C> MiddleNewService<T, C>
where
    C: Pop<ContextItem1>,
    C::Result: Push<ContextItem2>,
    T: NewService<Request = (Request, <C::Result as Push<ContextItem2>>::Result)>,
{
    fn new(inner: T) -> Self {
        MiddleNewService {
            inner,
            marker1: PhantomData,
        }
    }
}

struct OuterService<T, C>
where
    C: Default + Push<ContextItem1>,
    T: Service<Request = (Request, C::Result)>,
{
    inner: T,
    marker: PhantomData<C>,
}

impl<T, C> Service for OuterService<T, C>
where
    C: Default + Push<ContextItem1>,
    T: Service<Request = (Request, C::Result)>,
{
    type Request = Request;
    type Response = T::Response;
    type Error = T::Error;
    type Future = T::Future;
    fn call(&self, req: Self::Request) -> Self::Future {
        let context = C::default().push(ContextItem1 {});
        self.inner.call((req, context))
    }
}

struct OuterNewService<T, C>
where
    C: Default + Push<ContextItem1>,
    T: NewService<Request = (Request, C::Result)>,
{
    inner: T,
    marker: PhantomData<C>,
}

impl<T, C> NewService for OuterNewService<T, C>
where
    C: Default + Push<ContextItem1>,
    T: NewService<Request = (Request, C::Result)>,
{
    type Request = Request;
    type Response = T::Response;
    type Error = T::Error;
    type Instance = OuterService<T::Instance, C>;
    fn new_service(&self) -> Result<Self::Instance, io::Error> {
        self.inner.new_service().map(|s| OuterService {
            inner: s,
            marker: PhantomData,
        })
    }
}

impl<T, C> OuterNewService<T, C>
where
    C: Default + Push<ContextItem1>,
    T: NewService<Request = (Request, C::Result)>,
{
    fn new(inner: T) -> Self {
        OuterNewService {
            inner,
            marker: PhantomData,
        }
    }
}

/// A context type of this file's own, for the two items above.
#[derive(Debug, Clone, Default)]
pub struct MyContext<T, C> {
    head: T,
    tail: C,
}

#[derive(Debug, Clone, Default)]
pub struct MyEmptyContext;

impl<U> Push<U> for MyEmptyContext {
    type Result = MyContext<U, Self>;
    fn push(self, item: U) -> Self::Result {
        MyContext { head: item, tail: Self::default() }
    }
}

impl<T, C> Has<T> for MyContext<T, C> {
    fn set(&mut self, item: T) {
        self.head = item;
    }

    fn get(&self) -> &T {
        &self.head
    }

    fn get_mut(&mut self) -> &mut T {
        &mut self.head
    }
}

impl<T, C> Pop<T> for MyContext<T, C> {
    type Result = C;
    fn pop(self) -> (T, Self::Result) {
        (self.head, self.tail)
    }
}

impl<C, T, U> Push<U> for MyContext<T, C> {
    type Result = MyContext<U, Self>;
    fn push(self, item: U) -> Self::Result {
        MyContext { head: item, tail: self }
    }
}

impl<C: Has<ContextItem1>> Has<ContextItem1> for MyContext<ContextItem2, C> {
    fn set(&mut self, item: ContextItem1) {
        self.tail.set(item);
    }

    fn get(&self) -> &ContextItem1 {
        self.tail.get()
    }

    fn get_mut(&mut self) -> &mut ContextItem1 {
        self.tail.get_mut()
    }
}

impl<C: Has<ContextItem2>> Has<ContextItem2> for MyContext<ContextItem1, C> {
    fn set(&mut self, item: ContextItem2) {
        self.tail.set(item);
    }

    fn get(&self) -> &ContextItem2 {
        self.tail.get()
    }

    fn get_mut(&mut self) -> &mut ContextItem2 {
        self.tail.get_mut()
    }
}

impl<C> Pop<ContextItem1> for MyContext<ContextItem2, C>
where
    C: Pop<ContextItem1>,
{
    type Result = MyContext<ContextItem2, C::Result>;
    fn pop(self) -> (ContextItem1, Self::Result) {
        let (value, tail) = self.tail.pop();
        (value, MyContext { head: self.head, tail })
    }
}

impl<C> Pop<ContextItem2> for MyContext<ContextItem1, C>
where
    C: Pop<ContextItem2>,
{
    type Result = MyContext<ContextItem1, C::Result>;
    fn pop(self) -> (ContextItem2, Self::Result) {
        let (value, tail) = self.tail.pop();
        (value, MyContext { head: self.head, tail })
    }
}

#[test]
fn send_request() {
    let new_service =
        OuterNewService::<_, MyEmptyContext>::new(MiddleNewService::new(InnerNewService::new()));

    let req = Request::new(Method::Post, Uri::from_str("127.0.0.1:80").unwrap());
    new_service
        .new_service()
        .expect("Failed to start new service")
        .call(req)
        .wait()
        .expect("Service::call returned an error");
}
